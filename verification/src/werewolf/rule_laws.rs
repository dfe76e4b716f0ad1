//! The rules of the game as statements about its moves.

use vstd::prelude::*;
use crate::assoc::get_key;
use crate::seqs::{count_where, lemma_first_from, lemma_indices_where};
use crate::werewolf::election::equal_weights;
use crate::werewolf::error::GameError;
use crate::werewolf::laws::{law_seat_of, lemma_seat_exists};
use crate::werewolf::lobby::is_deal;
use crate::werewolf::state::GameView;
use crate::werewolf::table::{board, MAX_SEATS};
use crate::werewolf::tally::{is_top, leaders, lemma_unbeaten, targets, votes_for};
use crate::werewolf::types::{DeathCause, Role, Stage, Winner};

verus! {

/// Nobody below `n` satisfies a condition exactly if the count is zero.
proof fn lemma_count_zero(n: nat, keep: spec_fn(int) -> bool)
    ensures
        count_where(n, keep) == 0 <==> forall|i: int| 0 <= i < n ==> !#[trigger] keep(i),
    decreases n,
{
    if n > 0 {
        lemma_count_zero((n - 1) as nat, keep);
        assert(count_where(n, keep) == 0 ==> !keep(n - 1));
    }
}

/// Slaughter of a side: the good side has won exactly if no wolf lives, the wolves
/// exactly if a wolf lives and the villagers or the gods are all dead. Neither the
/// sheriff nor the numbers of the sides count.
pub proof fn law_victory(g: GameView)
    ensures
        g.winner() == Some(Winner::Good) <==> forall|i: int|
            0 <= i < g.players.len() ==> !#[trigger] (g.living_wolf())(i),
        g.winner() == Some(Winner::Wolves) <==> (exists|i: int|
            0 <= i < g.players.len() && #[trigger] (g.living_wolf())(i)) && ((forall|i: int|
            0 <= i < g.players.len() ==> !#[trigger] (g.living_villager())(i)) || (forall|i: int|
            0 <= i < g.players.len() ==> !#[trigger] (g.living_god())(i))),
{
    lemma_count_zero(g.players.len(), g.living_wolf());
    lemma_count_zero(g.players.len(), g.living_villager());
    lemma_count_zero(g.players.len(), g.living_god());
}

/// Who has won depends on the seats alone.
pub proof fn law_victory_by_seats(g: GameView, h: GameView)
    requires
        g.players == h.players,
    ensures
        g.winner() == h.winner(),
{
    assert(g.living_wolf() =~= h.living_wolf());
    assert(g.living_villager() =~= h.living_villager());
    assert(g.living_god() =~= h.living_god());
}

/// How often each role occurs on a board.
pub open spec fn board_count(n: nat, role: Role) -> nat {
    match role {
        Role::Werewolf => if n == 9 || n == 12 {
            3
        } else {
            2
        },
        Role::WolfKing | Role::Guard => if n == 9 {
            0
        } else {
            1
        },
        Role::Seer | Role::Witch | Role::Hunter => 1,
        Role::Villager => if n >= 11 {
            4
        } else {
            3
        },
    }
}

/// The count of a value in a list, from its end.
spec fn occurs(s: Seq<Role>, role: Role) -> nat
    decreases s.len(),
{
    if s.len() == 0 {
        0
    } else {
        occurs(s.drop_last(), role) + (if s.last() == role {
            1nat
        } else {
            0nat
        })
    }
}

proof fn lemma_occurs(s: Seq<Role>, role: Role)
    ensures
        s.to_multiset().count(role) == occurs(s, role),
    decreases s.len(),
{
    s.to_multiset_ensures();
    if s.len() > 0 {
        lemma_occurs(s.drop_last(), role);
        assert(s =~= s.drop_last().push(s.last()));
        s.drop_last().to_multiset_ensures();
    }
}

proof fn lemma_push_occurs(s: Seq<Role>, x: Role, role: Role)
    ensures
        occurs(s.push(x), role) == occurs(s, role) + (if x == role {
            1nat
        } else {
            0nat
        }),
{
    assert(s.push(x).drop_last() =~= s);
}

proof fn lemma_board_count(n: nat, role: Role)
    requires
        board(n) is Some,
    ensures
        occurs(board(n)->0, role) == board_count(n, role),
{
    broadcast use vstd::seq::group_seq_axioms;

    let e = Seq::<Role>::empty();
    let w = e.push(Role::Werewolf).push(Role::Werewolf);
    lemma_push_occurs(e, Role::Werewolf, role);
    lemma_push_occurs(e.push(Role::Werewolf), Role::Werewolf, role);
    let w3 = w.push(Role::Werewolf);
    lemma_push_occurs(w, Role::Werewolf, role);
    let k = if n == 9 {
        w3
    } else if n == 12 {
        w3.push(Role::WolfKing)
    } else {
        w.push(Role::WolfKing)
    };
    lemma_push_occurs(w3, Role::WolfKing, role);
    lemma_push_occurs(w, Role::WolfKing, role);
    let a = k.push(Role::Seer);
    let b = a.push(Role::Witch);
    let c = b.push(Role::Hunter);
    lemma_push_occurs(k, Role::Seer, role);
    lemma_push_occurs(a, Role::Witch, role);
    lemma_push_occurs(b, Role::Hunter, role);
    let d = if n == 9 {
        c
    } else {
        c.push(Role::Guard)
    };
    lemma_push_occurs(c, Role::Guard, role);
    let v1 = d.push(Role::Villager);
    let v2 = v1.push(Role::Villager);
    let v3 = v2.push(Role::Villager);
    let v4 = v3.push(Role::Villager);
    lemma_push_occurs(d, Role::Villager, role);
    lemma_push_occurs(v1, Role::Villager, role);
    lemma_push_occurs(v2, Role::Villager, role);
    lemma_push_occurs(v3, Role::Villager, role);
    if n >= 11 {
        assert(board(n)->0 =~= v4);
    } else {
        assert(board(n)->0 =~= v3);
    }
}

/// A deal gives each role as often as the board says: a single seer, witch and hunter,
/// a guard and a wolf king from ten players on, three wolves in all, four among twelve.
pub proof fn law_deal(roles: Seq<Role>, n: nat, role: Role)
    requires
        is_deal(roles, n),
    ensures
        roles.len() == n,
        roles.to_multiset().count(role) == board_count(n, role),
        board_count(n, Role::Werewolf) + board_count(n, Role::WolfKing) == (if n == 12 {
            4nat
        } else {
            3nat
        }),
{
    lemma_occurs(board(n)->0, role);
    lemma_board_count(n, role);
}

/// A started game: everybody lives, the roles are those dealt, both potions are there,
/// and it is the first night.
pub proof fn law_started(g: GameView, roles: Seq<Role>, i: int)
    requires
        0 <= i < g.players.len(),
    ensures
        g.started(roles).players[i].alive,
        g.started(roles).players[i].role == Some(roles[i]),
        g.started(roles).players[i].open_id == g.players[i].open_id,
        !g.started(roles).witch_save_used,
        !g.started(roles).witch_poison_used,
        g.started(roles).day == 1,
        g.started(roles).sheriff_idx is None,
        g.started(roles).stage == Stage::GuardPick || g.started(roles).stage == Stage::WolvesPick,
{
}

/// Whom the guard protected last cannot be protected next, unless the guard has passed.
pub proof fn law_guard_never_repeats(
    g: GameView,
    who: Seq<char>,
    target: Seq<char>,
    later: GameView,
    again: Seq<char>,
)
    requires
        g.guard_pick(who, target) is Ok,
        later.last_guard_target == g.guard_pick(who, target)->Ok_0.last_guard_target,
        later.seat_of(target) == g.seat_of(target),
    ensures
        later.guard_pick(again, target) is Err,
{
}

/// A guard who passes may protect anybody living the next time.
pub proof fn law_guard_skip_frees(
    g: GameView,
    who: Seq<char>,
    later: GameView,
    again: Seq<char>,
    target: Seq<char>,
)
    requires
        g.guard_skip(who) is Ok,
        later.stage == Stage::GuardPick,
        later.last_guard_target == g.guard_skip(who)->Ok_0.last_guard_target,
        later.living_holder(again, Role::Guard, GameError::NotLivingGuard) is Ok,
        later.seat_of(target) is Some,
        later.players[later.seat_of(target)->0 as int].alive,
    ensures
        later.guard_pick(again, target) is Ok,
{
}

/// The wolves kill exactly whom every living wolf has picked; if they differ, or one
/// has not picked, nobody.
pub proof fn law_wolves_must_agree(g: GameView, t: usize)
    requires
        g.players.len() <= MAX_SEATS,
    ensures
        g.wolf_target() == Some(t) <==> ((exists|i: int|
            0 <= i < g.players.len() && #[trigger] (g.living_wolf())(i)) && (forall|i: int|
            0 <= i < g.players.len() && #[trigger] (g.living_wolf())(i) ==> get_key(
                g.wolf_kill_votes,
                i as usize,
            ) == Some(t))),
{
    let n = g.players.len();
    let w = g.wolf_seats();
    lemma_indices_where(n, g.living_wolf());
    if g.wolf_target() == Some(t) {
        assert(w.contains(w[0]));
        assert((g.living_wolf())(w[0] as int));
        assert forall|i: int| 0 <= i < n && #[trigger] (g.living_wolf())(i) implies get_key(
            g.wolf_kill_votes,
            i as usize,
        ) == Some(t) by {
            assert(w.contains(i as usize));
            let k = choose|k: int| 0 <= k < w.len() && w[k] == i as usize;
            assert(get_key(g.wolf_kill_votes, g.wolf_seats()[k]) == Some(t));
        }
    }
    if (exists|i: int| 0 <= i < n && #[trigger] (g.living_wolf())(i)) && (forall|i: int|
        0 <= i < n && #[trigger] (g.living_wolf())(i) ==> get_key(g.wolf_kill_votes, i as usize)
            == Some(t)) {
        let i = choose|i: int| 0 <= i < n && #[trigger] (g.living_wolf())(i);
        assert(w.contains(i as usize));
        assert forall|k: int| 0 <= k < w.len() implies get_key(
            g.wolf_kill_votes,
            #[trigger] g.wolf_seats()[k],
        ) == Some(t) by {
            assert(w.contains(w[k]));
            assert((g.living_wolf())(w[k] as int));
        }
        assert(g.wolves_agree_on(t));
    }
}

/// The victim lives exactly if guarded or saved but not both.
pub proof fn law_double_protection(g: GameView, v: usize)
    requires
        g.night_victim == Some(v),
    ensures
        g.victim_dies() <==> ((g.guard_target == Some(v)) == (g.witch_save_choice == Some(true))),
        g.witch_poison_target != Some(v) ==> (g.dead_seats().contains(v) <==> g.victim_dies()),
{
    let d = g.night_deaths();
    if g.victim_dies() {
        assert(d[0].0 == v);
        assert(g.dead_seats()[0] == v);
    } else if g.witch_poison_target != Some(v) {
        assert forall|i: int| 0 <= i < g.dead_seats().len() implies #[trigger] g.dead_seats()[i]
            != v by {
            assert(g.dead_seats()[i] == d[i].0);
        }
    }
}

/// Poison kills whoever protects: whom the witch poisons is dead in the morning.
pub proof fn law_poison_kills(g: GameView, t: usize)
    requires
        g.witch_poison_target == Some(t),
    ensures
        g.dead_seats().contains(t),
{
    let d = g.night_deaths();
    if g.victim_dies() && g.night_victim == Some(t) {
        assert(g.dead_seats()[0] == t);
    } else {
        assert(d[d.len() - 1].0 == t);
        assert(g.dead_seats()[d.len() - 1] == t);
    }
}

/// Nobody dies at night but the wolves' victim and whom the witch poisoned, and each
/// of them once.
pub proof fn law_night_deaths(g: GameView, i: int)
    requires
        0 <= i < g.night_deaths().len(),
    ensures
        g.night_deaths().len() <= 2,
        (g.night_deaths()[i].1 == DeathCause::WolfKill && g.night_victim == Some(
            g.night_deaths()[i].0,
        )) || (g.night_deaths()[i].1 == DeathCause::Poison && g.witch_poison_target == Some(
            g.night_deaths()[i].0,
        )),
        g.night_deaths().len() == 2 ==> g.night_deaths()[0].0 != g.night_deaths()[1].0,
{
}

/// A hunter or wolf king who dies of poison does not shoot: who may shoot at dawn was
/// killed by the wolves.
pub proof fn law_poisoned_never_shoots(g: GameView, i: usize)
    requires
        g.dead_shooter() == Some(i),
    ensures
        g.night_deaths().contains((i, DeathCause::WolfKill)),
        !g.night_deaths().contains((i, DeathCause::Poison)),
{
    let d = g.night_deaths();
    assert(d[0] == (i, DeathCause::WolfKill));
}

/// All dead of the first night have last words, later dead of a night none.
pub proof fn law_last_words_of_night(g: GameView)
    requires
        forall|i: int|
            0 <= i < g.night_deaths().len() ==> (#[trigger] g.night_deaths()[i]).0
                < g.players.len(),
    ensures
        g.day == 1 ==> g.night_resolved().last_words_queue == g.dead_seats(),
        g.day != 1 ==> g.night_resolved().last_words_queue.len() == 0,
{
    crate::werewolf::night::lemma_dying(g.potions_spent(), g.night_deaths());
}

/// The antidote works once: a witch who saves had it and has it no longer.
pub proof fn law_antidote_once(
    g: GameView,
    who: Seq<char>,
    poison: Option<Seq<char>>,
)
    requires
        g.wf(),
        g.witch_act(who, true, poison) is Ok,
    ensures
        !g.witch_save_used,
        poison is None,
        g.witch_act(who, true, poison)->Ok_0.witch_save_used,
{
    law_witch_night(g, who, true, poison);
}

/// The poison works once: a witch who poisons had it and has it no longer.
pub proof fn law_poison_once(g: GameView, who: Seq<char>, save: bool, id: Seq<char>)
    requires
        g.wf(),
        g.witch_act(who, save, Some(id)) is Ok,
    ensures
        !g.witch_poison_used,
        !save,
        g.witch_act(who, save, Some(id))->Ok_0.witch_poison_used,
{
    law_witch_night(g, who, save, Some(id));
}

/// After the witch has decided the night is over, with her potions spent as she used them.
pub proof fn law_witch_night(g: GameView, who: Seq<char>, save: bool, poison: Option<Seq<char>>)
    requires
        g.wf(),
        g.witch_act(who, save, poison) is Ok,
    ensures
        g.witch_act(who, save, poison)->Ok_0.witch_save_used == (g.witch_save_used || save),
        g.witch_act(who, save, poison)->Ok_0.witch_poison_used == (g.witch_poison_used || poison
            is Some),
        g.witch_act(who, save, poison)->Ok_0.stage == Stage::DayReveal || g.witch_act(
            who,
            save,
            poison,
        )->Ok_0.stage == Stage::SheriffNominate,
{
    let w = g.seat_of(who)->0;
    let p = g.poison_seat(w, poison)->Ok_0;
    if poison is Some {
        lemma_seat_exists(g, poison->0);
    }
    let h = GameView {
        witch_save_choice: Some(save),
        witch_poison_target: p,
        witch_acted: true,
        recap_log: g.recap_log.push(
            crate::werewolf::types::RecapView::Witch { day: g.day, save, poison: p },
        ),
        ..g
    };
    crate::werewolf::night::lemma_dying(h.potions_spent(), h.night_deaths());
}

/// Who ran in the election never votes in it, whether or not the candidacy stands.
pub proof fn law_candidates_never_vote(g: GameView, i: usize)
    requires
        g.players.len() <= MAX_SEATS,
        g.sheriff_original_candidates.contains(i),
    ensures
        !g.elector_seats().contains(i),
{
    lemma_indices_where(g.players.len(), g.elects());
}

/// The dead of the first night take part in the election.
pub proof fn law_first_night_dead_take_part(g: GameView, i: usize)
    requires
        g.players.len() <= MAX_SEATS,
        g.day == 1,
        i < g.players.len(),
        g.last_night_deaths.contains(i),
    ensures
        g.eligible_seats().contains(i),
        !g.sheriff_original_candidates.contains(i) ==> g.elector_seats().contains(i),
{
    lemma_indices_where(g.players.len(), g.eligible());
    lemma_indices_where(g.players.len(), g.elects());
    assert((g.eligible())(i as int));
    assert(!g.sheriff_original_candidates.contains(i) ==> (g.elects())(i as int));
}

/// The election has at most two rounds: the second ends it.
pub proof fn law_second_election_round_decides(g: GameView)
    requires
        g.stage == Stage::SheriffVote,
        g.sheriff_vote_round == 1,
    ensures
        g.resolve_sheriff_vote() is Ok,
        g.resolve_sheriff_vote()->Ok_0.0.stage == Stage::DayReveal,
        leaders(g.sheriff_votes, equal_weights()).len() > 1
            ==> g.resolve_sheriff_vote()->Ok_0.1 is None,
{
}

/// Who leads a vote got at least as many votes as anybody; in a tie all leaders got
/// as many.
pub proof fn law_leaders(
    votes: Seq<(usize, Option<usize>)>,
    w: crate::werewolf::tally::Weights,
    a: usize,
    b: usize,
)
    requires
        leaders(votes, w).contains(a),
    ensures
        targets(votes).contains(a),
        targets(votes).contains(b) ==> votes_for(votes, w, b) <= votes_for(votes, w, a),
        targets(votes).contains(b) ==> (leaders(votes, w).contains(b) <==> votes_for(votes, w, b)
            == votes_for(votes, w, a)),
{
    let l = leaders(votes, w);
    lemma_unbeaten(targets(votes), votes, w);
    let i = choose|i: int| 0 <= i < l.len() && l[i] == a;
    assert(is_top(votes, w, l[i]));
    assert(targets(votes).contains(l[i]));
    if targets(votes).contains(b) {
        if l.contains(b) {
            let j = choose|j: int| 0 <= j < l.len() && l[j] == b;
            assert(is_top(votes, w, l[j]));
        } else {
            assert(!is_top(votes, w, b));
        }
    }
}

/// Somebody leads a vote exactly if somebody got a vote.
pub proof fn law_somebody_leads(
    votes: Seq<(usize, Option<usize>)>,
    w: crate::werewolf::tally::Weights,
)
    ensures
        leaders(votes, w).len() == 0 <==> targets(votes).len() == 0,
{
    let ts = targets(votes);
    lemma_unbeaten(ts, votes, w);
    if ts.len() > 0 {
        let m = lemma_best(ts, votes, w);
        assert(is_top(votes, w, ts[m])) by {
            assert forall|u: usize| #[trigger] ts.contains(u) implies votes_for(votes, w, u)
                <= votes_for(votes, w, ts[m]) by {
                let k = choose|k: int| 0 <= k < ts.len() && ts[k] == u;
                assert(votes_for(votes, w, ts[k]) <= votes_for(votes, w, ts[m]));
            }
        }
        assert(ts.contains(ts[m]));
        assert(leaders(votes, w).contains(ts[m]));
    }
}

proof fn lemma_best(
    ts: Seq<usize>,
    votes: Seq<(usize, Option<usize>)>,
    w: crate::werewolf::tally::Weights,
) -> (m: int)
    requires
        ts.len() > 0,
    ensures
        0 <= m < ts.len(),
        forall|k: int|
            0 <= k < ts.len() ==> votes_for(votes, w, #[trigger] ts[k]) <= votes_for(
                votes,
                w,
                ts[m],
            ),
    decreases ts.len(),
{
    if ts.len() == 1 {
        0
    } else {
        let r = ts.drop_last();
        let m = lemma_best(r, votes, w);
        assert forall|k: int| 0 <= k < r.len() implies votes_for(votes, w, #[trigger] ts[k])
            <= votes_for(votes, w, ts[m]) by {
            assert(r[k] == ts[k]);
        }
        if votes_for(votes, w, ts.last()) > votes_for(votes, w, ts[m]) {
            ts.len() - 1
        } else {
            m
        }
    }
}

/// A wolf that blows up ends the day: the announcement and then the night follow, or
/// its badge and then the night, or the night or the end at once.
pub proof fn law_explosion_ends_day(g: GameView, who: Seq<char>)
    requires
        g.self_explode(who) is Ok,
    ensures
        ({
            let h = g.self_explode(who)->Ok_0.0;
            ||| h.stage == Stage::DayReveal && h.skip_day_after_reveal && h.sheriff_idx is None
            ||| h.stage == Stage::BadgePass && h.pending_badge_post_stage == Some(Stage::DayVote)
            ||| h.stage == Stage::GuardPick
            ||| h.stage == Stage::WolvesPick
            ||| h.stage == Stage::Ended
        }),
{
}

/// Whose turn it is to speak may speak, whatever is said.
pub proof fn law_speaker_may_speak(g: GameView, text: Seq<char>)
    requires
        g.wf(),
        g.in_play(),
    ensures
        g.stage == Stage::DaySpeech && g.day_speaker() is Some ==> g.submit_day_speech(
            g.players[g.day_speaker()->0 as int].open_id,
            text,
        ) is Ok,
        g.stage == Stage::SheriffSpeech && g.sheriff_speaker() is Some ==> g.submit_sheriff_speech(
            g.players[g.sheriff_speaker()->0 as int].open_id,
            text,
        ) is Ok,
        g.stage == Stage::LastWords && g.last_words_speaker() is Some ==> g.submit_last_words(
            g.players[g.last_words_speaker()->0 as int].open_id,
            text,
        ) is Ok,
{
    if g.day_speaker() is Some {
        assert(g.day_speech_order[g.day_speech_idx as int] < g.players.len());
        law_seat_of(g, g.day_speaker()->0);
    }
    if g.sheriff_speaker() is Some {
        assert(g.sheriff_speech_order[g.sheriff_speech_idx as int] < g.players.len());
        law_seat_of(g, g.sheriff_speaker()->0);
    }
    if g.last_words_speaker() is Some {
        assert(g.last_words_queue[g.last_words_idx as int] < g.players.len());
        law_seat_of(g, g.last_words_speaker()->0);
    }
}

/// Whose candidacy, shot or badge is waited for may always answer: stay or withdraw,
/// hold fire, destroy the badge.
pub proof fn law_waited_for_may_answer(g: GameView, stay: bool, start: usize)
    requires
        g.wf(),
        g.in_play(),
    ensures
        g.stage == Stage::SheriffWithdraw && g.withdrawer() is Some ==> g.decide_sheriff_withdraw(
            g.players[g.withdrawer()->0 as int].open_id,
            stay,
        ) is Ok,
        g.stage == Stage::HunterShoot && g.pending_hunter is Some ==> g.hunter_shoot(
            g.players[g.pending_hunter->0 as int].open_id,
            None,
            start,
        ) is Ok,
        g.stage == Stage::BadgePass && g.pending_badge is Some ==> g.transfer_badge(
            g.players[g.pending_badge->0 as int].open_id,
            None,
            start,
        ) is Ok,
{
    if g.withdrawer() is Some {
        lemma_first_from(0, g.sheriff_original_candidates.len() as int, g.undecided());
        law_seat_of(g, g.withdrawer()->0);
    }
    if g.pending_hunter is Some {
        law_seat_of(g, g.pending_hunter->0);
    }
    if g.pending_badge is Some {
        law_seat_of(g, g.pending_badge->0);
    }
}

/// The game goes into the night only undecided, and ends there if it is decided.
pub proof fn law_night_only_undecided(g: GameView)
    ensures
        g.winner() is Some ==> g.next_night().stage == Stage::Ended,
        g.winner() is None ==> g.next_night().stage != Stage::Ended && g.next_night().day == (g.day
            + 1) as u32,
{
}

} // verus!
