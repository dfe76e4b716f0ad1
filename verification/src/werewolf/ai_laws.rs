//! How what a model replies becomes what its player does.

use vstd::prelude::*;
use crate::assoc::{get_key, has_key, key_pos, lemma_key_pos};
use crate::seqs::{lemma_indices_where, lemma_pick_from};
use crate::text::{trimmed, unicode_lowercase};
use crate::text_laws::law_trimming_twice_is_once;
use crate::werewolf::actions::Outcome;
use crate::werewolf::asking::ModelReply;
use crate::werewolf::day_laws::{law_badge, law_day_speech, law_day_vote, law_shot};
use crate::werewolf::election_laws::{law_election_vote, law_running_are_those_who_said_so,
    law_who_may_run, says_yes};
use crate::werewolf::llm::{choosable, seat_and_name, MaybeSeatResp, SeatResp, SpeechResp, WitchResp,
    WolfPickResp, YesNoResp};
use crate::werewolf::night_laws::{law_guard_protects, law_seer_learns_the_side, law_witch_decides,
    law_wolf_picks, wolf_role};
use crate::werewolf::outlook_laws::lemma_pick_has;
use crate::werewolf::state::GameView;
use crate::werewolf::types::{Role, SeerCheck, Stage};
use crate::werewolf::view::Outlook;

verus! {

/// A choice is offered exactly of those seen alive whom nothing excludes.
pub proof fn lemma_offered(
    o: Outlook,
    not_me: Option<usize>,
    not_last: Option<usize>,
    only: Option<Seq<usize>>,
    t: usize,
)
    requires
        o.wf(),
        o.players.len() <= usize::MAX,
    ensures
        has_key(o.choices(not_me, not_last, only), t) <==> t < o.players.len()
            && o.players[t as int].2 && not_me != Some(t) && not_last != Some(t) && (only is None
            || only->0.contains(t)),
{
    let keep = choosable(not_me, not_last, only);
    let cs = o.choices(not_me, not_last, only);
    lemma_key_pos(cs, t);
    if has_key(cs, t) {
        let k = key_pos(cs, t);
        let i = lemma_pick_from(o.players, keep, seat_and_name(), k);
        assert(o.players[i].0 == i);
        assert(cs[k] == (o.players[i].0, o.players[i].1));
    }
    if t < o.players.len() && keep(o.players[t as int]) {
        assert(o.players[t as int].0 == t as int);
        let k = lemma_pick_has(o.players, keep, seat_and_name(), t as int);
        assert(cs[k].0 == t);
    }
    if t < o.players.len() {
        assert(o.players[t as int].0 == t as int);
    }
}

/// Outside the election of the first day an AI sees who is alive.
pub proof fn lemma_sees_living(g: GameView, me: usize, t: usize)
    requires
        g.players.len() <= usize::MAX,
        t < g.players.len(),
        !g.in_election(),
    ensures
        g.outlook(me).wf(),
        g.outlook(me).players.len() == g.players.len(),
        g.outlook(me).players[t as int].2 == g.players[t as int].alive,
        g.outlook(me).me_idx == me,
{
    assert(!g.unannounced().contains(t));
}

/// The choices that an AI has are those it may make: whom it names of them is whom it means.
proof fn lemma_named(g: GameView, seat: usize, t: usize)
    requires
        g.wf(),
        seat < g.players.len(),
        t < g.players.len(),
        !g.in_election(),
        g.players[t as int].alive,
    ensures
        has_key(g.outlook(seat).living_choices(), t),
        t != seat ==> has_key(g.outlook(seat).other_choices(), t),
        g.last_guard_target != Some(t) ==> has_key(g.outlook(seat).guard_choices(g), t),
{
    let o = g.outlook(seat);
    lemma_sees_living(g, seat, t);
    lemma_offered(o, None, None, None, t);
    lemma_offered(o, Some(o.me_idx), None, None, t);
    lemma_offered(o, None, g.last_guard_target, None, t);
}

pub proof fn lemma_not_empty<V>(cs: Seq<(usize, V)>, t: usize)
    requires
        has_key(cs, t),
    ensures
        cs.len() > 0,
{
    lemma_key_pos(cs, t);
}

/// An AI guard protects whom the model names, if the guard may.
pub proof fn law_ai_guard_protects_whom_it_names(
    g: GameView,
    seat: usize,
    p: SeatResp,
    start: usize,
)
    requires
        g.wf(),
        g.stage == Stage::GuardPick,
        seat < g.players.len(),
        g.players[seat as int].role == Some(Role::Guard),
        g.players[seat as int].alive,
        p.target_idx < g.players.len(),
        g.players[p.target_idx as int].alive,
        g.last_guard_target != Some(p.target_idx),
    ensures
        ({
            let a = g.understood(seat, g.question(seat)->0, Some(ModelReply::Seat(p))).0;
            let r = g.answered(seat, a, start);
            r is Ok && r->Ok_0.0.guard_target == Some(p.target_idx)
        }),
{
    let t = p.target_idx;
    lemma_named(g, seat, t);
    lemma_not_empty(g.outlook(seat).guard_choices(g), t);
    law_guard_protects(g, seat, t);
}

/// An AI wolf picks whom the model names, if that player lives.
pub proof fn law_ai_wolf_picks_whom_it_names(
    g: GameView,
    seat: usize,
    p: WolfPickResp,
    start: usize,
)
    requires
        g.wf(),
        g.stage == Stage::WolvesPick,
        seat < g.players.len(),
        wolf_role(g.players[seat as int].role),
        g.players[seat as int].alive,
        !g.wolf_ready.contains(seat),
        p.target_idx < g.players.len(),
        g.players[p.target_idx as int].alive,
    ensures
        ({
            let a = g.understood(seat, g.question(seat)->0, Some(ModelReply::Wolf(p))).0;
            let r = g.answered(seat, a, start);
            r is Ok && get_key(r->Ok_0.0.wolf_kill_votes, seat) == Some(p.target_idx)
        }),
{
    let t = p.target_idx;
    lemma_named(g, seat, t);
    lemma_not_empty(g.outlook(seat).living_choices(), t);
    law_wolf_picks(g, seat, t, seat);
    let a = g.understood(seat, g.question(seat)->0, Some(ModelReply::Wolf(p))).0;
    assert(a->Wolf_target == t);
    let h = g.wolf_pick(g.players[seat as int].open_id, g.players[t as int].open_id)->Ok_0;
    assert(h.wolf_confirmed(seat, a->chat).wolf_kill_votes == h.wolf_kill_votes);
}

/// An AI seer checks whom the model names, if that is another living player, and learns that
/// player's side.
pub proof fn law_ai_seer_checks_whom_it_names(
    g: GameView,
    seat: usize,
    p: SeatResp,
    start: usize,
)
    requires
        g.wf(),
        g.stage == Stage::SeerPick,
        seat < g.players.len(),
        g.players[seat as int].role == Some(Role::Seer),
        g.players[seat as int].alive,
        p.target_idx < g.players.len(),
        g.players[p.target_idx as int].alive,
        p.target_idx != seat,
    ensures
        ({
            let t = p.target_idx;
            let a = g.understood(seat, g.question(seat)->0, Some(ModelReply::Seat(p))).0;
            let r = g.answered(seat, a, start);
            let is_wolf = wolf_role(g.players[t as int].role);
            &&& r is Ok
            &&& r->Ok_0.1 == Outcome::Check(is_wolf)
            &&& r->Ok_0.0.seer_history == g.seer_history.push(
                SeerCheck { day: g.day, target_idx: t, is_wolf },
            )
        }),
{
    let t = p.target_idx;
    lemma_named(g, seat, t);
    lemma_not_empty(g.outlook(seat).other_choices(), t);
    law_seer_learns_the_side(g, seat, t);
}

/// An AI witch does what the model's word says, as far as her potions go: saves, poisons the
/// player named, or passes.
pub proof fn law_ai_witch_does_as_it_says(g: GameView, seat: usize, p: WitchResp, start: usize)
    requires
        g.wf(),
        g.stage == Stage::WitchAct,
        seat < g.players.len(),
        g.players[seat as int].role == Some(Role::Witch),
        g.players[seat as int].alive,
        p.poison_target_idx is Some ==> p.poison_target_idx->0 < g.players.len(),
    ensures
        ({
            let word = unicode_lowercase(p.action@);
            let a = g.understood(seat, g.question(seat)->0, Some(ModelReply::Witch(p))).0;
            let r = g.answered(seat, a, start);
            let saves = word == "save"@ && !g.witch_save_used && g.night_victim is Some;
            let poisons = word == "poison"@ && !g.witch_poison_used && p.poison_target_idx is Some
                && g.players[p.poison_target_idx->0 as int].alive && p.poison_target_idx->0 != seat;
            &&& r is Ok
            &&& r->Ok_0.0.witch_save_used == (g.witch_save_used || saves)
            &&& r->Ok_0.0.witch_poison_used == (g.witch_poison_used || poisons)
            &&& poisons ==> !r->Ok_0.0.players[p.poison_target_idx->0 as int].alive
        }),
{
    let word = unicode_lowercase(p.action@);
    reveal_strlit("save");
    reveal_strlit("poison");
    assert("save"@.len() == 4 && "poison"@.len() == 6);
    let o = g.outlook(seat);
    let i = if p.poison_target_idx is Some {
        p.poison_target_idx->0
    } else {
        seat
    };
    lemma_sees_living(g, seat, i);
    lemma_offered(o, Some(o.me_idx), None, None, i);
    law_witch_decides(g, seat, true, None, i);
    law_witch_decides(g, seat, false, None, i);
    law_witch_decides(g, seat, false, p.poison_target_idx, i);
}

/// An AI runs for sheriff exactly if the model says so.
pub proof fn law_ai_runs_as_it_says(g: GameView, seat: usize, p: YesNoResp, start: usize)
    requires
        g.wf(),
        g.stage == Stage::SheriffNominate,
        seat < g.players.len(),
        g.players[seat as int].alive,
    ensures
        ({
            let a = g.understood(seat, g.question(seat)->0, Some(ModelReply::YesNo(p))).0;
            let r = g.answered(seat, a, start);
            r is Ok && get_key(r->Ok_0.0.sheriff_nominations, seat) == Some(p.yes)
        }),
{
    law_who_may_run(g, seat, p.yes, seat);
}

/// An AI says what the model says, when it is its turn to speak.
pub proof fn law_ai_speaks_as_it_says(g: GameView, seat: usize, p: SpeechResp, start: usize)
    requires
        g.wf(),
        g.stage == Stage::DaySpeech,
        seat < g.players.len(),
        g.day_speech_idx < g.day_speech_order.len() <= usize::MAX,
        g.day_speech_order[g.day_speech_idx as int] == seat,
        p.speech is Some,
        trimmed(p.speech->0@).len() > 0,
    ensures
        ({
            let a = g.understood(seat, g.question(seat)->0, Some(ModelReply::Speech(p))).0;
            let r = g.answered(seat, a, start);
            r is Ok && r->Ok_0.0.day_speeches == g.day_speeches.push(
                (seat, trimmed(p.speech->0@)),
            )
        }),
{
    assert(p.speech.deep_view() == Some(p.speech->0@));
    law_trimming_twice_is_once(p.speech->0@);
    law_day_speech(g, seat, trimmed(p.speech->0@));
}

/// An AI votes for whom the model names, if that is another player who stands in the vote, and
/// for nobody if the model names nobody.
pub proof fn law_ai_votes_as_it_says(g: GameView, seat: usize, p: MaybeSeatResp, start: usize)
    requires
        g.wf(),
        g.stage == Stage::DayVote,
        g.day_vote_round == 0,
        seat < g.players.len(),
        g.players[seat as int].alive,
    ensures
        ({
            let a = g.understood(seat, g.question(seat)->0, Some(ModelReply::MaybeSeat(p))).0;
            let r = g.answered(seat, a, start);
            let t = p.target_idx;
            let legal = 0 <= t < g.players.len() && g.players[t as int].alive && t != seat;
            &&& r is Ok
            &&& get_key(r->Ok_0.0.day_votes, seat) == Some(
                if legal {
                    Some(t as usize)
                } else {
                    None
                },
            )
        }),
{
    let o = g.outlook(seat);
    let t = p.target_idx;
    lemma_indices_where(g.players.len(), g.living());
    if 0 <= t < g.players.len() {
        lemma_sees_living(g, seat, t as usize);
        assert((g.living())(t as usize as int) == g.players[t as int].alive);
    }
    lemma_sees_living(g, seat, seat);
    if 0 <= t <= usize::MAX {
        lemma_offered(o, Some(o.me_idx), None, Some(g.vote_candidates()), t as usize);
    }
    law_day_vote(g, seat, None, seat);
    if 0 <= t < g.players.len() {
        law_day_vote(g, seat, Some(t as usize), seat);
    }
}

/// A dying AI shoots whom the model names, if that is another living player, and holds fire if
/// the model names nobody.
pub proof fn law_ai_shoots_as_it_says(g: GameView, seat: usize, p: MaybeSeatResp, start: usize)
    requires
        g.wf(),
        g.stage == Stage::HunterShoot,
        seat < g.players.len(),
        g.pending_hunter == Some(seat),
    ensures
        ({
            let a = g.understood(seat, g.question(seat)->0, Some(ModelReply::MaybeSeat(p))).0;
            let r = g.answered(seat, a, start);
            let t = p.target_idx;
            let legal = 0 <= t < g.players.len() && g.players[t as int].alive && t != seat;
            &&& r is Ok
            &&& r->Ok_0.1 == Outcome::Seat(
                if legal {
                    Some(t as usize)
                } else {
                    None
                },
            )
            &&& legal ==> !r->Ok_0.0.players[t as int].alive
        }),
{
    let o = g.outlook(seat);
    let t = p.target_idx;
    if 0 <= t < g.players.len() {
        lemma_sees_living(g, seat, t as usize);
    }
    lemma_sees_living(g, seat, seat);
    if 0 <= t <= usize::MAX {
        lemma_offered(o, Some(o.me_idx), None, None, t as usize);
        if has_key(o.other_choices(), t as usize) {
            lemma_not_empty(o.other_choices(), t as usize);
        }
    }
    law_shot(g, seat, None, start, seat);
    if 0 <= t < g.players.len() {
        law_shot(g, seat, Some(t as usize), start, t as usize);
    }
}

/// A dead AI sheriff gives the badge to whom the model names, if that is another living player,
/// and destroys it if the model names nobody.
pub proof fn law_ai_passes_the_badge_as_it_says(
    g: GameView,
    seat: usize,
    p: MaybeSeatResp,
    start: usize,
)
    requires
        g.wf(),
        g.stage == Stage::BadgePass,
        seat < g.players.len(),
        g.pending_badge == Some(seat),
    ensures
        ({
            let a = g.understood(seat, g.question(seat)->0, Some(ModelReply::MaybeSeat(p))).0;
            let r = g.answered(seat, a, start);
            let t = p.target_idx;
            let legal = 0 <= t < g.players.len() && g.players[t as int].alive && t != seat;
            &&& r is Ok
            &&& r->Ok_0.0.sheriff_idx == (if legal {
                Some(t as usize)
            } else {
                None
            })
        }),
{
    let o = g.outlook(seat);
    let t = p.target_idx;
    if 0 <= t < g.players.len() {
        lemma_sees_living(g, seat, t as usize);
    }
    lemma_sees_living(g, seat, seat);
    if 0 <= t <= usize::MAX {
        lemma_offered(o, Some(o.me_idx), None, None, t as usize);
        if has_key(o.other_choices(), t as usize) {
            lemma_not_empty(o.other_choices(), t as usize);
        }
    }
    law_badge(g, seat, None, start);
    if 0 <= t < g.players.len() {
        law_badge(g, seat, Some(t as usize), start);
    }
}

/// An AI votes in the election for the candidate whom the model names, and for nobody if it
/// names nobody or no candidate.
pub proof fn law_ai_elects_as_it_says(g: GameView, seat: usize, p: MaybeSeatResp, start: usize)
    requires
        g.wf(),
        g.stage == Stage::SheriffVote,
        g.sheriff_vote_round == 0,
        seat < g.players.len(),
        g.players[seat as int].alive,
        !g.sheriff_original_candidates.contains(seat),
    ensures
        ({
            let a = g.understood(seat, g.question(seat)->0, Some(ModelReply::MaybeSeat(p))).0;
            let r = g.answered(seat, a, start);
            let t = p.target_idx;
            let legal = 0 <= t < g.players.len() && says_yes(g.sheriff_nominations, t as usize);
            &&& r is Ok
            &&& get_key(r->Ok_0.0.sheriff_votes, seat) == Some(
                if legal {
                    Some(t as usize)
                } else {
                    None
                },
            )
        }),
{
    let t = p.target_idx;
    let cs = g.named_candidates();
    law_election_vote(g, seat, None, seat);
    if 0 <= t <= usize::MAX {
        lemma_key_pos(cs, t as usize);
        law_running_are_those_who_said_so(g.sheriff_nominations, t as usize);
        crate::werewolf::election::lemma_running(g.sheriff_nominations, g.players.len());
        let c = g.candidates();
        if has_key(cs, t as usize) {
            let k = key_pos(cs, t as usize);
            assert(cs[k] == (c[k], g.players[c[k] as int].name));
            assert(c.contains(t as usize));
            assert(c[k] < g.players.len());
        }
        if c.contains(t as usize) {
            let k = choose|k: int| 0 <= k < c.len() && c[k] == t as usize;
            assert(cs[k].0 == t as usize);
        }
        if t < g.players.len() {
            law_election_vote(g, seat, Some(t as usize), seat);
        }
    }
}

} // verus!
