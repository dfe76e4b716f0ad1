//! What each step of the day does, said of the seats: speeches, votes, shots, badges, wolves
//! that blow up, and the end of the game.

use vstd::prelude::*;
use crate::assoc::{get_key, keys_distinct, law_put_get};
use crate::seqs::{count_where, lemma_indices_where};
use crate::text::{decimal_text, trimmed};
use crate::werewolf::election_laws::{is_named, lemma_targets_are_named, lemma_who_leads, named};
use crate::werewolf::laws::law_seat_of;
use crate::werewolf::night_laws::{lemma_no_holder, lemma_only_holder, shooting_role, wolf_role};
use crate::werewolf::state::GameView;
use crate::werewolf::tally::{leaders, votes_for};
use crate::werewolf::types::{DeathCause, DeathEvent, PlayerView, RecapView, Role, Stage, Winner};

verus! {

/// Whether a living player holds one of the wolves' roles.
pub open spec fn some_wolf_lives(g: GameView) -> bool {
    exists|i: int| 0 <= i < g.players.len() && lives_as_wolf(#[trigger] g.players[i])
}

/// Whether a living player is a villager.
pub open spec fn some_villager_lives(g: GameView) -> bool {
    exists|i: int|
        0 <= i < g.players.len() && (#[trigger] g.players[i]).alive && g.players[i].role == Some(
            Role::Villager,
        )
}

/// Whether a living player is a seer, witch, hunter or guard.
pub open spec fn some_god_lives(g: GameView) -> bool {
    exists|i: int| 0 <= i < g.players.len() && lives_as_god(#[trigger] g.players[i])
}

/// Whether the player is a living werewolf or wolf king.
pub open spec fn lives_as_wolf(p: PlayerView) -> bool {
    p.alive && (p.role == Some(Role::Werewolf) || p.role == Some(Role::WolfKing))
}

/// Whether the player is a living seer, witch, hunter or guard.
pub open spec fn lives_as_god(p: PlayerView) -> bool {
    p.alive && (p.role == Some(Role::Seer) || p.role == Some(Role::Witch) || p.role == Some(
        Role::Hunter,
    ) || p.role == Some(Role::Guard))
}

proof fn lemma_somebody(n: nat, keep: spec_fn(int) -> bool)
    requires
        n <= usize::MAX,
    ensures
        count_where(n, keep) > 0 <==> exists|i: int| 0 <= i < n && #[trigger] keep(i),
{
    lemma_indices_where(n, keep);
    let s = crate::seqs::indices_where(n, keep);
    if s.len() > 0 {
        assert(s.contains(s[0]));
        assert(keep(s[0] as int));
    }
    if exists|i: int| 0 <= i < n && #[trigger] keep(i) {
        let i = choose|i: int| 0 <= i < n && #[trigger] keep(i);
        assert(s.contains(i as usize));
    }
}

/// Who has won, from the roles of the living: the good side when no wolf lives, the wolves
/// when one lives and no villager does, or no seer, witch, hunter or guard; else nobody.
pub proof fn law_who_has_won(g: GameView)
    requires
        g.wf(),
    ensures
        !some_wolf_lives(g) ==> g.winner() == Some(Winner::Good),
        some_wolf_lives(g) && (!some_villager_lives(g) || !some_god_lives(g)) ==> g.winner()
            == Some(Winner::Wolves),
        some_wolf_lives(g) && some_villager_lives(g) && some_god_lives(g) ==> g.winner() is None,
{
    let n = g.players.len();
    lemma_somebody(n, g.living_wolf());
    lemma_somebody(n, g.living_villager());
    lemma_somebody(n, g.living_god());
    assert forall|i: int| 0 <= i < n implies #[trigger] (g.living_wolf())(i) == lives_as_wolf(
        g.players[i],
    ) by {}
    assert forall|i: int| 0 <= i < n implies #[trigger] (g.living_god())(i) == lives_as_god(
        g.players[i],
    ) by {}
    if some_wolf_lives(g) {
        let i = choose|i: int| 0 <= i < n && lives_as_wolf(#[trigger] g.players[i]);
        assert((g.living_wolf())(i));
    }
    if some_god_lives(g) {
        let i = choose|i: int| 0 <= i < n && lives_as_god(#[trigger] g.players[i]);
        assert((g.living_god())(i));
    }
    if some_villager_lives(g) {
        let i = choose|i: int|
            0 <= i < n && (#[trigger] g.players[i]).alive && g.players[i].role == Some(
                Role::Villager,
            );
        assert((g.living_villager())(i));
    }
    if exists|i: int| 0 <= i < n && #[trigger] (g.living_wolf())(i) {
        let i = choose|i: int| 0 <= i < n && #[trigger] (g.living_wolf())(i);
        assert(lives_as_wolf(g.players[i]));
    }
    if exists|i: int| 0 <= i < n && #[trigger] (g.living_god())(i) {
        let i = choose|i: int| 0 <= i < n && #[trigger] (g.living_god())(i);
        assert(lives_as_god(g.players[i]));
    }
    if exists|i: int| 0 <= i < n && #[trigger] (g.living_villager())(i) {
        let i = choose|i: int| 0 <= i < n && #[trigger] (g.living_villager())(i);
        assert(g.players[i].alive);
    }
}

/// The next night: a decided game ends; an undecided one goes on with a new day, nothing left
/// of the old one, the seats as they are, and the guard first if one lives.
pub proof fn law_night_falls(g: GameView)
    requires
        g.wf(),
        g.day < u32::MAX,
    ensures
        ({
            let h = g.next_night();
            let over = !some_wolf_lives(g) || !some_villager_lives(g) || !some_god_lives(g);
            &&& h.players == g.players
            &&& h.sheriff_idx == g.sheriff_idx
            &&& h.witch_save_used == g.witch_save_used
            &&& h.witch_poison_used == g.witch_poison_used
            &&& h.last_guard_target == g.last_guard_target
            &&& h.seer_history == g.seer_history
            &&& over ==> h.stage == Stage::Ended
            &&& !over ==> {
                &&& h.day == g.day + 1
                &&& h.stage == Stage::GuardPick || h.stage == Stage::WolvesPick
                &&& h.wolf_kill_votes.len() == 0
                &&& h.wolf_chat.len() == 0
                &&& h.wolf_ready.len() == 0
                &&& h.day_speeches.len() == 0
                &&& h.day_pk_candidates.len() == 0
                &&& h.seer_check_target is None
                &&& h.last_day_lynched is None
                &&& !h.witch_acted
                &&& h.night_victim is None
                &&& h.guard_target is None
                &&& h.witch_save_choice is None
                &&& h.witch_poison_target is None
                &&& h.last_night_deaths.len() == 0
                &&& h.day_votes.len() == 0
                &&& h.day_vote_round == 0
                &&& h.event_log == g.event_log.push(
                    "第 "@ + decimal_text((g.day + 1) as nat) + " 夜开始。"@,
                )
            }
        }),
{
    law_who_has_won(g);
}

/// The night begins with the guard exactly if there is a living one.
pub proof fn law_guard_comes_first(g: GameView, s: usize)
    requires
        g.wf(),
        g.day < u32::MAX,
        g.winner() is None,
    ensures
        s < g.players.len() && (forall|i: int|
            0 <= i < g.players.len() ==> ((#[trigger] g.players[i]).role == Some(Role::Guard)
                <==> i == s)) ==> g.next_night().stage == (if g.players[s as int].alive {
            Stage::GuardPick
        } else {
            Stage::WolvesPick
        }),
        (forall|i: int|
            0 <= i < g.players.len() ==> (#[trigger] g.players[i]).role != Some(Role::Guard))
            ==> g.next_night().stage == Stage::WolvesPick,
{
    if s < g.players.len() && (forall|i: int|
        0 <= i < g.players.len() ==> ((#[trigger] g.players[i]).role == Some(Role::Guard) <==> i
            == s)) {
        assert(g.players[s as int].role == Some(Role::Guard));
        lemma_only_holder(g, Role::Guard, s);
    }
    if forall|i: int|
        0 <= i < g.players.len() ==> (#[trigger] g.players[i]).role != Some(Role::Guard) {
        lemma_no_holder(g, Role::Guard);
    }
}

/// A player speaks when it is the player's turn and at no other time; what was said is kept
/// under that seat, silence as such, and the next one follows.
pub proof fn law_day_speech(g: GameView, s: usize, text: Seq<char>)
    requires
        g.wf(),
        s < g.players.len(),
        g.day_speech_order.len() <= usize::MAX,
    ensures
        ({
            let r = g.submit_day_speech(g.players[s as int].open_id, text);
            let said = if trimmed(text).len() == 0 {
                "(沉默)"@
            } else {
                trimmed(text)
            };
            &&& r is Ok <==> {
                &&& g.stage == Stage::DaySpeech
                &&& g.day_speech_idx < g.day_speech_order.len()
                &&& g.day_speech_order[g.day_speech_idx as int] == s
            }
            &&& r is Ok ==> {
                &&& r->Ok_0.day_speeches == g.day_speeches.push((s, said))
                &&& r->Ok_0.day_speech_idx == g.day_speech_idx + 1
                &&& r->Ok_0.stage == Stage::DaySpeech
                &&& r->Ok_0.players == g.players
                &&& r->Ok_0.event_log == g.event_log.push(
                    "第 "@ + decimal_text(g.day as nat) + " 天 · "@ + g.players[s as int].name
                        + " 发言："@ + said,
                )
                &&& r->Ok_0.recap_log == g.recap_log.push(
                    RecapView::DaySpeech { day: g.day, player: s, text: said },
                )
            }
        }),
{
    law_seat_of(g, s);
}

/// Last words are said in turn and kept under the seat of who said them.
pub proof fn law_last_words(g: GameView, s: usize, text: Seq<char>)
    requires
        g.wf(),
        s < g.players.len(),
        g.last_words_queue.len() <= usize::MAX,
    ensures
        ({
            let r = g.submit_last_words(g.players[s as int].open_id, text);
            let said = if trimmed(text).len() == 0 {
                "(沉默)"@
            } else {
                trimmed(text)
            };
            &&& r is Ok <==> {
                &&& g.stage == Stage::LastWords
                &&& g.last_words_idx < g.last_words_queue.len()
                &&& g.last_words_queue[g.last_words_idx as int] == s
            }
            &&& r is Ok ==> {
                &&& r->Ok_0.last_words_speeches == g.last_words_speeches.push((s, said))
                &&& r->Ok_0.last_words_idx == g.last_words_idx + 1
                &&& r->Ok_0.stage == Stage::LastWords
                &&& r->Ok_0.players == g.players
                &&& r->Ok_0.event_log == g.event_log.push(
                    g.players[s as int].name + " 的遗言："@ + said,
                )
            }
        }),
{
    law_seat_of(g, s);
}

/// After the last of the last words comes the shot that is due, else the badge that is due.
pub proof fn law_after_last_words(g: GameView, start: usize)
    ensures
        ({
            let r = g.finish_last_words(start);
            &&& r is Ok <==> g.stage == Stage::LastWords && g.last_words_idx
                >= g.last_words_queue.len()
            &&& r is Ok && g.pending_hunter is Some ==> r->Ok_0.stage == Stage::HunterShoot
                && r->Ok_0.pending_hunter == g.pending_hunter
            &&& r is Ok && g.pending_hunter is None && g.pending_badge is Some ==> r->Ok_0.stage
                == Stage::BadgePass && r->Ok_0.pending_badge == g.pending_badge
            &&& r is Ok ==> r->Ok_0.players == g.players
        }),
{
}

/// A shot: the dead hunter or wolf king whose turn it is takes one other living player along
/// or holds fire. Exactly that player dies.
pub proof fn law_shot(g: GameView, s: usize, target: Option<usize>, start: usize, i: usize)
    requires
        g.wf(),
        g.in_play(),
        s < g.players.len(),
        target is Some ==> target->0 < g.players.len(),
        i < g.players.len(),
    ensures
        ({
            let r = g.hunter_shoot(
                g.players[s as int].open_id,
                match target {
                    Some(t) => Some(g.players[t as int].open_id),
                    None => None,
                },
                start,
            );
            let h = r->Ok_0.0;
            &&& r is Ok <==> {
                &&& g.stage == Stage::HunterShoot
                &&& g.pending_hunter == Some(s)
                &&& target is Some ==> g.players[target->0 as int].alive && target->0 != s
            }
            &&& r is Ok ==> {
                &&& r->Ok_0.1 == target
                &&& h.players.len() == g.players.len()
                &&& h.players[i as int].alive == (g.players[i as int].alive && target != Some(i))
                &&& h.players[i as int].role == g.players[i as int].role
                &&& h.players[i as int].name == g.players[i as int].name
                &&& h.pending_hunter is None
            }
        }),
{
    law_seat_of(g, s);
    if target is Some {
        law_seat_of(g, target->0);
    }
}

/// A shot ends the game if it decides it, and brings the badge of a dead sheriff first.
pub proof fn law_after_shot(g: GameView, s: usize, t: usize, start: usize)
    requires
        g.wf(),
        g.in_play(),
        s < g.players.len(),
        t < g.players.len(),
        g.hunter_shoot(
            g.players[s as int].open_id,
            Some(g.players[t as int].open_id),
            start,
        ) is Ok,
    ensures
        ({
            let h = g.hunter_shoot(
                g.players[s as int].open_id,
                Some(g.players[t as int].open_id),
                start,
            )->Ok_0.0;
            &&& g.sheriff_idx == Some(t) ==> h.stage == Stage::BadgePass && h.pending_badge
                == Some(t)
            &&& h.deaths.len() == g.deaths.len() + 1 && h.deaths[g.deaths.len() as int].player_idx
                == t && h.deaths[g.deaths.len() as int].cause == DeathCause::HunterShot
        }),
{
    law_seat_of(g, s);
    law_seat_of(g, t);
}

/// The badge: the dead sheriff whose turn it is gives it to one other living player or
/// destroys it. Exactly that player is the sheriff then.
pub proof fn law_badge(g: GameView, s: usize, target: Option<usize>, start: usize)
    requires
        g.wf(),
        g.in_play(),
        s < g.players.len(),
        target is Some ==> target->0 < g.players.len(),
    ensures
        ({
            let r = g.transfer_badge(
                g.players[s as int].open_id,
                match target {
                    Some(t) => Some(g.players[t as int].open_id),
                    None => None,
                },
                start,
            );
            &&& r is Ok <==> {
                &&& g.stage == Stage::BadgePass
                &&& g.pending_badge == Some(s)
                &&& target is Some ==> g.players[target->0 as int].alive && target->0 != s
            }
            &&& r is Ok ==> {
                &&& r->Ok_0.1 == target
                &&& r->Ok_0.0.sheriff_idx == target
                &&& r->Ok_0.0.players == g.players
                &&& r->Ok_0.0.pending_badge is None
            }
        }),
{
    law_seat_of(g, s);
    if target is Some {
        law_seat_of(g, target->0);
    }
}

/// A vote of the day: the living vote, in the second round only those who do not stand in it,
/// for another living player who stands, or for nobody. The vote counts for that voter alone.
pub proof fn law_day_vote(g: GameView, v: usize, target: Option<usize>, other: usize)
    requires
        g.wf(),
        g.in_play(),
        v < g.players.len(),
        target is Some ==> target->0 < g.players.len(),
    ensures
        ({
            let r = g.cast_vote(
                g.players[v as int].open_id,
                match target {
                    Some(t) => Some(g.players[t as int].open_id),
                    None => None,
                },
            );
            &&& r is Ok <==> {
                &&& g.stage == Stage::DayVote
                &&& g.players[v as int].alive
                &&& g.day_vote_round == 1 ==> !g.day_pk_candidates.contains(v)
                &&& target is Some ==> {
                    &&& g.players[target->0 as int].alive
                    &&& target->0 != v
                    &&& g.day_vote_round == 1 ==> g.day_pk_candidates.contains(target->0)
                }
            }
            &&& r is Ok ==> get_key(r->Ok_0.day_votes, v) == Some(target)
            &&& r is Ok && other != v ==> get_key(r->Ok_0.day_votes, other) == get_key(
                g.day_votes,
                other,
            )
            &&& r is Ok ==> r->Ok_0.players == g.players && r->Ok_0.stage == Stage::DayVote
            &&& r is Ok ==> r->Ok_0.recap_log == g.recap_log.push(
                RecapView::DayVoteCast {
                    day: g.day,
                    voter: v,
                    target,
                    weight: if g.sheriff_idx == Some(v) {
                        3
                    } else {
                        2
                    },
                },
            )
        }),
{
    law_seat_of(g, v);
    lemma_indices_where(g.players.len(), g.votes());
    lemma_indices_where(g.players.len(), g.living());
    law_put_get(g.day_votes, v, target, other);
    assert((g.votes())(v as int) == (g.players[v as int].alive && (g.day_vote_round == 0
        || !g.day_pk_candidates.contains(v))));
    if target is Some {
        law_seat_of(g, target->0);
        assert((g.living())(target->0 as int) == g.players[target->0 as int].alive);
    }
}

/// What a seat has got in the vote of a day, in halves: two of each voter who named it, and
/// one more if the sheriff did.
pub open spec fn halves(g: GameView, t: usize) -> nat {
    2 * named(g.day_votes, t) + (if g.sheriff_idx is Some && g.day_votes.contains(
        (g.sheriff_idx->0, Some(t)),
    ) {
        1nat
    } else {
        0nat
    })
}

proof fn lemma_halves(votes: Seq<(usize, Option<usize>)>, g: GameView, t: usize)
    requires
        keys_distinct(votes),
    ensures
        votes_for(votes, g.day_weights(), t) == 2 * named(votes, t) + (if g.sheriff_idx is Some
            && votes.contains((g.sheriff_idx->0, Some(t))) {
            1nat
        } else {
            0nat
        }),
    decreases votes.len(),
{
    reveal(Seq::filter);
    if votes.len() > 0 {
        let rest = votes.drop_last();
        assert(keys_distinct(rest)) by {
            assert forall|i: int, j: int| 0 <= i < j < rest.len() implies (#[trigger] rest[i]).0 != (
            #[trigger] rest[j]).0 by {
                assert(votes[i].0 != votes[j].0);
            }
        }
        lemma_halves(rest, g, t);
        if g.sheriff_idx is Some {
            let x = (g.sheriff_idx->0, Some(t));
            assert(votes[votes.len() - 1] == votes.last());
            if rest.contains(x) {
                let k = choose|k: int| 0 <= k < rest.len() && rest[k] == x;
                assert(votes[k] == x);
                assert(votes[k].0 != votes[votes.len() - 1].0);
            }
            if votes.contains(x) {
                let k = choose|k: int| 0 <= k < votes.len() && votes[k] == x;
                if k < rest.len() {
                    assert(rest[k] == x);
                }
            }
        }
    }
}

/// The vote of the day: who has got more than anybody else is banished and dies, and nobody
/// else does. With nobody named nobody is. A first tie leads to speeches and a second round
/// among exactly those tied, a second tie to nobody's banishment. The sheriff's vote counts
/// one and a half.
pub proof fn law_most_voted_is_banished(g: GameView, t: usize, other: usize, i: usize)
    requires
        g.wf(),
        g.stage == Stage::DayVote,
        i < g.players.len(),
    ensures
        ({
            let v = g.day_votes;
            let r = g.resolve_lynch();
            let h = r->Ok_0.0;
            &&& r is Ok
            &&& h.players.len() == g.players.len()
            &&& is_named(v, t) && (forall|u: usize| u != t ==> #[trigger] halves(g, u) < halves(g, t))
                ==> {
                &&& r->Ok_0.1 == Some(t)
                &&& h.last_day_lynched == Some(t)
                &&& h.players[i as int].alive == (g.players[i as int].alive && i != t)
                &&& h.event_log == g.event_log.push(
                    "第 "@ + decimal_text(g.day as nat) + " 天："@ + (g.players[t as int].name
                        + " 被投票放逐。"@),
                )
                &&& h.deaths == g.deaths.push(
                    DeathEvent {
                        day: g.day,
                        night: false,
                        player_idx: t,
                        cause: DeathCause::Lynch,
                    },
                )
            }
            &&& (forall|u: usize| !#[trigger] is_named(v, u)) ==> r->Ok_0.1 is None
                && h.last_day_lynched is None && h.players == g.players && h.stage == Stage::DayVote
            &&& is_named(v, t) && t != other && halves(g, t) == halves(g, other) && (forall|u: usize|
                #[trigger] halves(g, u) <= halves(g, t)) ==> {
                &&& r->Ok_0.1 is None
                &&& h.last_day_lynched is None
                &&& h.players == g.players
                &&& g.day_vote_round == 0 ==> h.stage == Stage::DaySpeech && h.day_vote_round == 1
                    && h.day_speech_order == h.day_pk_candidates && h.day_speech_idx == 0
                    && forall|u: usize| #[trigger]
                    h.day_pk_candidates.contains(u) <==> halves(g, u) == halves(g, t)
                &&& g.day_vote_round == 1 ==> h.stage == Stage::DayVote
            }
        }),
{
    let v = g.day_votes;
    let w = g.day_weights();
    let got = |u: usize| halves(g, u);
    let l = leaders(v, w);
    assert forall|u: usize| #[trigger] votes_for(v, w, u) == got(u) by {
        lemma_halves(v, g, u);
    }
    assert forall|u: usize| #[trigger] is_named(v, u) <==> got(u) > 0 by {
        lemma_targets_are_named(v, u);
        if g.sheriff_idx is Some && v.contains((g.sheriff_idx->0, Some(u))) {
            let k = choose|k: int| 0 <= k < v.len() && v[k] == (g.sheriff_idx->0, Some(u));
            assert(v[k].1 == Some(u));
        }
    }
    lemma_who_leads(v, w, got, t);
    lemma_who_leads(v, w, got, other);
    if is_named(v, t) && (forall|u: usize| u != t ==> #[trigger] halves(g, u) < halves(g, t)) {
        assert forall|u: usize| u != t implies #[trigger] got(u) < got(t) by {
            assert(halves(g, u) < halves(g, t));
        }
        assert(l == seq![t]);
        let k = choose|k: int| 0 <= k < v.len() && (#[trigger] v[k]).1 == Some(t);
        assert(t < g.players.len());
    }
    if forall|u: usize| !#[trigger] is_named(v, u) {
        assert forall|u: usize| #[trigger] got(u) == 0 by {
            assert(!is_named(v, u));
        }
    }
    if is_named(v, t) && t != other && halves(g, t) == halves(g, other) && (forall|u: usize|
        #[trigger] halves(g, u) <= halves(g, t)) {
        assert forall|u: usize| #[trigger] got(u) <= got(t) by {
            assert(halves(g, u) <= halves(g, t));
        }
        assert forall|u: usize| #[trigger] got(u) <= got(other) by {
            assert(got(u) <= got(t));
        }
        assert(l.contains(t) && l.contains(other));
        let a = choose|a: int| 0 <= a < l.len() && l[a] == t;
        let b = choose|b: int| 0 <= b < l.len() && l[b] == other;
        assert(l.len() >= 2);
        assert forall|u: usize| #[trigger] l.contains(u) <==> halves(g, u) == halves(g, t) by {
            lemma_who_leads(v, w, got, u);
            if halves(g, u) == halves(g, t) {
                assert(got(u) == got(t));
                assert forall|x: usize| #[trigger] got(x) <= got(u) by {
                    assert(got(x) <= got(t));
                }
            }
            if l.contains(u) {
                assert(got(t) <= got(u));
                assert(got(u) <= got(t));
            }
        }
    }
    crate::werewolf::tally::lemma_leaders(v, w, g.players.len());
}

/// After the vote the banished player has last words; a hunter or wolf king then shoots, and
/// a sheriff then passes the badge on. With nobody banished the night falls.
pub proof fn law_banished_have_their_say(g: GameView)
    requires
        g.stage == Stage::DayVote,
    ensures
        ({
            let h = g.advance_after_vote();
            &&& h.players == g.players
            &&& g.last_day_lynched is Some ==> {
                let i = g.last_day_lynched->0;
                &&& h.stage == Stage::LastWords
                &&& h.last_words_queue == seq![i]
                &&& h.last_words_idx == 0
                &&& shooting_role(g.players[i as int].role) ==> h.pending_hunter == Some(i)
                &&& !shooting_role(g.players[i as int].role) ==> h.pending_hunter
                    == g.pending_hunter
                &&& g.sheriff_idx == Some(i) ==> h.pending_badge == Some(i)
                &&& g.sheriff_idx != Some(i) ==> h.pending_badge == g.pending_badge
            }
            &&& g.last_day_lynched is None && g.winner() is None ==> h.stage == Stage::GuardPick
                || h.stage == Stage::WolvesPick
            &&& g.last_day_lynched is None && g.winner() is Some ==> h.stage == Stage::Ended
        }),
{
}

/// A living wolf may blow up during the election and the open day, and nobody else may. It
/// dies, and nobody else does; during the election there will be no sheriff.
pub proof fn law_wolf_blows_up(g: GameView, s: usize, i: usize)
    requires
        g.wf(),
        s < g.players.len(),
        i < g.players.len(),
    ensures
        ({
            let r = g.self_explode(g.players[s as int].open_id);
            let h = r->Ok_0.0;
            let election = g.stage == Stage::SheriffNominate || g.stage == Stage::SheriffSpeech
                || g.stage == Stage::SheriffWithdraw || g.stage == Stage::SheriffVote;
            let open_day = g.stage == Stage::SheriffPickDirection || g.stage == Stage::DaySpeech
                || g.stage == Stage::DayVote;
            &&& r is Ok <==> {
                &&& election || open_day
                &&& g.players[s as int].alive
                &&& wolf_role(g.players[s as int].role)
            }
            &&& r is Ok ==> {
                &&& r->Ok_0.1 == s
                &&& h.players.len() == g.players.len()
                &&& h.players[i as int].alive == (g.players[i as int].alive && i != s)
                &&& election ==> h.sheriff_idx is None && !h.sheriff_enabled
                    && h.skip_day_after_reveal && h.stage == Stage::DayReveal
                &&& open_day && g.sheriff_idx == Some(s) ==> h.stage == Stage::BadgePass
                    && h.pending_badge == Some(s)
                &&& open_day && g.sheriff_idx != Some(s) ==> h.stage == Stage::GuardPick || h.stage
                    == Stage::WolvesPick || h.stage == Stage::Ended
                &&& h.event_log.len() > g.event_log.len()
                &&& h.event_log[g.event_log.len() as int] == "第 "@ + decimal_text(g.day as nat)
                    + " 天："@ + (g.players[s as int].name + " 自爆。"@)
            }
        }),
{
    law_seat_of(g, s);
}

/// After the announcement come last words, then the shot, then the badge, each if it is due;
/// then the game ends if it is decided, and else the day goes on, led by a living sheriff.
pub proof fn law_after_the_news(g: GameView, start: usize)
    requires
        g.wf(),
        g.in_play(),
    ensures
        ({
            let r = g.enter_day_discuss(start);
            let h = r->Ok_0;
            let dead_sheriff = g.sheriff_idx is Some
                && !g.players[g.sheriff_idx->0 as int].alive;
            let badge = g.pending_badge is Some || dead_sheriff;
            let quiet = g.last_words_queue.len() == 0 && g.pending_hunter is None && !badge;
            let over = !some_wolf_lives(g) || !some_villager_lives(g) || !some_god_lives(g);
            &&& r is Ok <==> g.stage == Stage::DayReveal
            &&& r is Ok && g.last_words_queue.len() > 0 ==> h.stage == Stage::LastWords
            &&& r is Ok && g.last_words_queue.len() == 0 && g.pending_hunter is Some ==> h.stage
                == Stage::HunterShoot
            &&& r is Ok && g.last_words_queue.len() == 0 && g.pending_hunter is None && badge
                ==> h.stage == Stage::BadgePass
            &&& r is Ok && dead_sheriff && g.pending_badge is None ==> h.pending_badge
                == g.sheriff_idx
            &&& r is Ok && quiet && over ==> h.stage == Stage::Ended
            &&& r is Ok && quiet && !over && g.skip_day_after_reveal ==> h.stage
                == Stage::GuardPick || h.stage == Stage::WolvesPick
            &&& r is Ok && quiet && !over && !g.skip_day_after_reveal && g.sheriff_idx is Some
                ==> h.stage == Stage::SheriffPickDirection
            &&& r is Ok && quiet && !over && !g.skip_day_after_reveal && g.sheriff_idx is None
                ==> h.stage == Stage::DaySpeech
            &&& r is Ok ==> h.players == g.players
        }),
{
    law_who_has_won(g);
    let p = g.post_noted();
    law_who_has_won(p);
    let q = GameView { skip_day_after_reveal: false, ..p };
    law_who_has_won(q);
    assert(p.players == g.players && q.players == g.players);
    assert(some_wolf_lives(p) == some_wolf_lives(g));
    assert(some_wolf_lives(q) == some_wolf_lives(g));
}

} // verus!
