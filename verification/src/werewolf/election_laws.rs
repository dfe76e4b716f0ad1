//! What each step of the sheriff election does, said of the seats and their answers.

use vstd::prelude::*;
use crate::assoc::{get_key, has_key, keys_distinct, law_put_get, lemma_key_pos};
use crate::seqs::{lemma_first_from, lemma_first_is, lemma_indices_where};
use crate::text::trimmed;
use crate::werewolf::election::{equal_weights, running};
use crate::werewolf::laws::law_seat_of;
use crate::werewolf::rule_laws::{law_leaders, law_somebody_leads};
use crate::werewolf::state::GameView;
use crate::werewolf::tally::{leaders, targets, votes_for, Weights};
use crate::werewolf::types::Stage;

verus! {

/// Whether a seat has said that it runs.
pub open spec fn says_yes(answers: Seq<(usize, bool)>, c: usize) -> bool {
    exists|k: int| 0 <= k < answers.len() && #[trigger] answers[k] == (c, true)
}

/// Those who run are exactly those who said so, each once.
pub proof fn law_running_are_those_who_said_so(answers: Seq<(usize, bool)>, c: usize)
    requires
        keys_distinct(answers),
    ensures
        running(answers).contains(c) <==> says_yes(answers, c),
        running(answers).no_duplicates(),
    decreases answers.len(),
{
    if answers.len() > 0 {
        let rest = answers.drop_last();
        let last = answers.last();
        assert(answers[answers.len() - 1] == last);
        assert(keys_distinct(rest)) by {
            assert forall|i: int, j: int| 0 <= i < j < rest.len() implies (#[trigger] rest[i]).0 != (
            #[trigger] rest[j]).0 by {
                assert(answers[i].0 != answers[j].0);
            }
        }
        law_running_are_those_who_said_so(rest, c);
        law_running_are_those_who_said_so(rest, last.0);
        assert(!says_yes(rest, last.0)) by {
            if says_yes(rest, last.0) {
                let k = choose|k: int| 0 <= k < rest.len() && #[trigger] rest[k] == (last.0, true);
                assert(answers[k].0 != answers[answers.len() - 1].0);
            }
        }
        if says_yes(rest, c) {
            let k = choose|k: int| 0 <= k < rest.len() && #[trigger] rest[k] == (c, true);
            assert(answers[k] == (c, true));
        }
        if says_yes(answers, c) {
            let k = choose|k: int| 0 <= k < answers.len() && #[trigger] answers[k] == (c, true);
            if k < rest.len() {
                assert(rest[k] == (c, true));
            }
        }
        if last.1 {
            let r = running(rest);
            let a = running(answers);
            assert(a == r.push(last.0));
            assert(a[a.len() - 1] == last.0);
            if r.contains(c) {
                let k = choose|k: int| 0 <= k < r.len() && r[k] == c;
                assert(a[k] == c);
            }
            if a.contains(c) {
                let k = choose|k: int| 0 <= k < a.len() && a[k] == c;
                if k < r.len() {
                    assert(r[k] == c);
                }
            }
        }
    }
}

/// How many run: none, one or more.
proof fn lemma_how_many_run(answers: Seq<(usize, bool)>)
    requires
        keys_distinct(answers),
    ensures
        running(answers).len() == 0 <==> forall|c: usize| !#[trigger] says_yes(answers, c),
        running(answers).len() == 1 ==> says_yes(answers, running(answers)[0]),
        forall|c: usize| #[trigger]
            says_yes(answers, c) && (forall|d: usize| #[trigger] says_yes(answers, d) ==> d == c)
                ==> running(answers) == seq![c],
        forall|c: usize, d: usize|
            #[trigger] says_yes(answers, c) && #[trigger] says_yes(answers, d) && c != d
                ==> running(answers).len() >= 2,
{
    let r = running(answers);
    law_running_are_those_who_said_so(answers, 0);
    assert forall|c: usize| r.contains(c) == #[trigger] says_yes(answers, c) by {
        law_running_are_those_who_said_so(answers, c);
    }
    if r.len() > 0 {
        assert(r.contains(r[0]));
        assert(says_yes(answers, r[0]));
    }
    assert forall|c: usize| #[trigger]
        says_yes(answers, c) && (forall|d: usize| #[trigger]
            says_yes(answers, d) ==> d == c) implies r == seq![c] by {
        assert(r.contains(c));
        assert forall|i: int| 0 <= i < r.len() implies r[i] == c by {
            assert(r.contains(r[i]));
            assert(says_yes(answers, r[i]));
        }
        if r.len() >= 2 {
            assert(r[0] != r[1]);
        }
        assert(r =~= seq![c]);
    }
    assert forall|c: usize, d: usize|
        #[trigger] says_yes(answers, c) && #[trigger] says_yes(answers, d) && c
            != d implies r.len() >= 2 by {
        assert(r.contains(c) && r.contains(d));
        let i = choose|i: int| 0 <= i < r.len() && r[i] == c;
        let j = choose|j: int| 0 <= j < r.len() && r[j] == d;
    }
}

/// Everybody alive, and on the first day also who died in the night, says whether to run;
/// the answer counts for that seat and changes nobody else's.
pub proof fn law_who_may_run(g: GameView, s: usize, run: bool, other: usize)
    requires
        g.wf(),
        s < g.players.len(),
    ensures
        ({
            let r = g.nominate_sheriff(g.players[s as int].open_id, run);
            &&& r is Ok <==> {
                &&& g.stage == Stage::SheriffNominate
                &&& g.players[s as int].alive || g.day == 1 && g.last_night_deaths.contains(s)
            }
            &&& r is Ok ==> get_key(r->Ok_0.sheriff_nominations, s) == Some(run)
            &&& r is Ok && other != s ==> get_key(r->Ok_0.sheriff_nominations, other) == get_key(
                g.sheriff_nominations,
                other,
            )
            &&& r is Ok ==> r->Ok_0.players == g.players && r->Ok_0.sheriff_idx == g.sheriff_idx
        }),
{
    law_seat_of(g, s);
    lemma_indices_where(g.players.len(), g.eligible());
    assert((g.eligible())(s as int) == (g.players[s as int].alive || g.day == 1
        && g.last_night_deaths.contains(s)));
    law_put_get(g.sheriff_nominations, s, run, other);
}

/// Nominations close by how many run: nobody and there is no sheriff, a single one is the
/// sheriff at once, and several speak.
pub proof fn law_nominations_close(g: GameView, c: usize, d: usize)
    requires
        g.wf(),
        g.stage == Stage::SheriffNominate,
        g.sheriff_vote_round == 0,
    ensures
        g.finish_sheriff_nominate() is Ok,
        ({
            let h = g.finish_sheriff_nominate()->Ok_0;
            let yes = g.sheriff_nominations;
            &&& (forall|x: usize| !#[trigger] says_yes(yes, x)) ==> h.sheriff_idx == g.sheriff_idx
                && h.stage == Stage::DayReveal && h.event_log == g.event_log.push(
                "无人上警，本局无警长。"@,
            )
            &&& says_yes(yes, c) && (forall|x: usize| #[trigger] says_yes(yes, x) ==> x == c)
                ==> h.sheriff_idx == Some(c) && h.stage == Stage::DayReveal && h.event_log
                == g.event_log.push(g.players[c as int].name + " 唯一上警，自动当选警长。"@)
            &&& says_yes(yes, c) && says_yes(yes, d) && c != d ==> h.sheriff_idx == g.sheriff_idx
                && h.stage == Stage::SheriffSpeech && h.sheriff_speech_order.contains(c)
                && h.sheriff_speech_order.contains(d) && h.sheriff_speech_idx == 0
            &&& h.sheriff_original_candidates.contains(c) == says_yes(yes, c)
            &&& h.players == g.players
        }),
{
    lemma_how_many_run(g.sheriff_nominations);
    law_running_are_those_who_said_so(g.sheriff_nominations, c);
    law_running_are_those_who_said_so(g.sheriff_nominations, d);
}

/// A candidate speaks when it is the candidate's turn and at no other time; what was said is
/// kept under that seat, silence as such, and the next one follows.
pub proof fn law_candidate_speaks(g: GameView, s: usize, text: Seq<char>)
    requires
        g.wf(),
        g.in_play(),
        s < g.players.len(),
        g.sheriff_speech_order.len() <= usize::MAX,
    ensures
        ({
            let r = g.submit_sheriff_speech(g.players[s as int].open_id, text);
            let said = if trimmed(text).len() == 0 {
                "(沉默)"@
            } else {
                trimmed(text)
            };
            &&& r is Ok <==> {
                &&& g.stage == Stage::SheriffSpeech
                &&& g.sheriff_speech_idx < g.sheriff_speech_order.len()
                &&& g.sheriff_speech_order[g.sheriff_speech_idx as int] == s
            }
            &&& r is Ok ==> {
                &&& r->Ok_0.sheriff_speeches == g.sheriff_speeches.push((s, said))
                &&& r->Ok_0.sheriff_speech_idx == g.sheriff_speech_idx + 1
                &&& r->Ok_0.stage == Stage::SheriffSpeech
                &&& r->Ok_0.players == g.players
                &&& r->Ok_0.event_log == g.event_log.push(
                    "上警发言 · "@ + g.players[s as int].name + "："@ + said,
                )
            }
        }),
{
    law_seat_of(g, s);
}

/// When all candidates have spoken, they may withdraw in the first round and are voted on in
/// the second.
pub proof fn law_candidates_have_spoken(g: GameView)
    ensures
        ({
            let r = g.finish_sheriff_speeches();
            &&& r is Ok <==> g.stage == Stage::SheriffSpeech && g.sheriff_speech_idx
                >= g.sheriff_speech_order.len()
            &&& r is Ok && g.sheriff_vote_round == 0 ==> r->Ok_0.stage == Stage::SheriffWithdraw
                && r->Ok_0.sheriff_withdrawals.len() == 0
            &&& r is Ok && g.sheriff_vote_round == 1 ==> r->Ok_0.stage == Stage::SheriffVote
                && r->Ok_0.sheriff_votes.len() == 0
            &&& r is Ok ==> r->Ok_0.sheriff_nominations == g.sheriff_nominations
                && r->Ok_0.sheriff_idx == g.sheriff_idx && r->Ok_0.players == g.players
        }),
{
}

/// Whether a candidate has said whether to stay.
pub open spec fn has_decided(g: GameView, c: usize) -> bool {
    exists|k: int| 0 <= k < g.sheriff_withdrawals.len() && (#[trigger] g.sheriff_withdrawals[k]).0 == c
}

pub proof fn lemma_has_decided(g: GameView, c: usize)
    ensures
        has_key(g.sheriff_withdrawals, c) == has_decided(g, c),
{
    lemma_key_pos(g.sheriff_withdrawals, c);
    if has_key(g.sheriff_withdrawals, c) {
        let k = crate::assoc::key_pos(g.sheriff_withdrawals, c);
        assert(g.sheriff_withdrawals[k].0 == c);
    }
}

/// A candidate whose turn it is stays or withdraws. Who withdraws no longer runs, who stays
/// goes on running, and nobody else's candidacy is touched.
pub proof fn law_candidate_stays_or_withdraws(g: GameView, k: int, stay: bool, other: usize)
    requires
        g.wf(),
        g.stage == Stage::SheriffWithdraw,
        0 <= k < g.sheriff_original_candidates.len(),
        forall|j: int|
            0 <= j < k ==> has_decided(g, #[trigger] g.sheriff_original_candidates[j]),
        !has_decided(g, g.sheriff_original_candidates[k]),
    ensures
        ({
            let s = g.sheriff_original_candidates[k];
            let r = g.decide_sheriff_withdraw(g.players[s as int].open_id, stay);
            &&& r is Ok
            &&& has_decided(r->Ok_0, s)
            &&& !stay ==> !says_yes(r->Ok_0.sheriff_nominations, s)
            &&& stay ==> r->Ok_0.sheriff_nominations == g.sheriff_nominations
            &&& other != s ==> get_key(r->Ok_0.sheriff_nominations, other) == get_key(
                g.sheriff_nominations,
                other,
            )
            &&& r->Ok_0.stage == Stage::SheriffWithdraw
            &&& r->Ok_0.players == g.players
        }),
{
    let s = g.sheriff_original_candidates[k];
    assert(s < g.players.len());
    law_seat_of(g, s);
    assert forall|j: int| 0 <= j < k implies !#[trigger] (g.undecided())(j) by {
        lemma_has_decided(g, g.sheriff_original_candidates[j]);
    }
    lemma_has_decided(g, s);
    lemma_first_is(g.sheriff_original_candidates.len() as int, g.undecided(), k);
    let h = g.decide_sheriff_withdraw(g.players[s as int].open_id, stay)->Ok_0;
    assert(h.sheriff_withdrawals[h.sheriff_withdrawals.len() - 1].0 == s);
    law_put_get(g.sheriff_nominations, s, false, other);
    lemma_key_pos(g.sheriff_nominations, s);
    crate::assoc::law_put_distinct(g.sheriff_nominations, s, false);
    lemma_key_pos(h.sheriff_nominations, s);
    if !stay && says_yes(h.sheriff_nominations, s) {
        let m = choose|m: int|
            0 <= m < h.sheriff_nominations.len() && #[trigger] h.sheriff_nominations[m] == (s, true);
        let p = crate::assoc::key_pos(h.sheriff_nominations, s);
        assert(h.sheriff_nominations[m].0 == h.sheriff_nominations[p].0);
    }
}

/// Nobody stays or withdraws out of turn: while an earlier candidate has not decided, and
/// after having decided.
pub proof fn law_nobody_withdraws_out_of_turn(g: GameView, s: usize, stay: bool)
    requires
        g.wf(),
        s < g.players.len(),
        g.decide_sheriff_withdraw(g.players[s as int].open_id, stay) is Ok,
    ensures
        g.stage == Stage::SheriffWithdraw,
        !has_decided(g, s),
        exists|k: int|
            0 <= k < g.sheriff_original_candidates.len() && #[trigger] g.sheriff_original_candidates[k]
                == s && forall|j: int|
                0 <= j < k ==> has_decided(g, #[trigger] g.sheriff_original_candidates[j]),
{
    law_seat_of(g, s);
    lemma_first_from(0, g.sheriff_original_candidates.len() as int, g.undecided());
    let k = crate::seqs::first_from(0, g.sheriff_original_candidates.len() as int, g.undecided());
    assert(g.sheriff_original_candidates[k] == s);
    assert((g.undecided())(k));
    lemma_has_decided(g, s);
    assert forall|j: int| 0 <= j < k implies has_decided(
        g,
        #[trigger] g.sheriff_original_candidates[j],
    ) by {
        assert(!(g.undecided())(j));
        lemma_has_decided(g, g.sheriff_original_candidates[j]);
    }
}

/// Withdrawals close when all candidates have decided, by how many still run: if nobody does
/// there is no sheriff, a single one who does is the sheriff, and with several the vote opens.
pub proof fn law_withdrawals_close(g: GameView, c: usize, d: usize)
    requires
        g.wf(),
        g.stage == Stage::SheriffWithdraw,
        g.sheriff_vote_round == 0,
    ensures
        ({
            let r = g.finish_sheriff_withdraw();
            let h = r->Ok_0.0;
            let yes = g.sheriff_nominations;
            &&& r is Ok <==> forall|k: int|
                0 <= k < g.sheriff_original_candidates.len() ==> has_decided(
                    g,
                    #[trigger] g.sheriff_original_candidates[k],
                )
            &&& r is Ok && (forall|x: usize| !#[trigger] says_yes(yes, x)) ==> r->Ok_0.1 is None
                && h.sheriff_idx == g.sheriff_idx && h.stage == Stage::DayReveal && h.event_log
                == g.event_log.push("所有候选人退水，本局无警长。"@)
            &&& r is Ok && says_yes(yes, c) && (forall|x: usize| #[trigger]
                says_yes(yes, x) ==> x == c) ==> r->Ok_0.1 == Some(c) && h.sheriff_idx == Some(c)
                && h.stage == Stage::DayReveal && h.event_log == g.event_log.push(
                g.players[c as int].name + " 成为唯一候选人，当选警长。"@,
            )
            &&& r is Ok && says_yes(yes, c) && says_yes(yes, d) && c != d ==> r->Ok_0.1 is None
                && h.sheriff_idx == g.sheriff_idx && h.stage == Stage::SheriffVote
                && h.sheriff_votes.len() == 0
            &&& r is Ok ==> h.players == g.players
        }),
{
    lemma_how_many_run(g.sheriff_nominations);
    lemma_first_from(0, g.sheriff_original_candidates.len() as int, g.undecided());
    let all = forall|k: int|
        0 <= k < g.sheriff_original_candidates.len() ==> has_decided(
            g,
            #[trigger] g.sheriff_original_candidates[k],
        );
    let i = crate::seqs::first_from(0, g.sheriff_original_candidates.len() as int, g.undecided());
    if all && i < g.sheriff_original_candidates.len() {
        lemma_has_decided(g, g.sheriff_original_candidates[i]);
        assert((g.undecided())(i));
    }
    if i >= g.sheriff_original_candidates.len() {
        assert forall|k: int| 0 <= k < g.sheriff_original_candidates.len() implies has_decided(
            g,
            #[trigger] g.sheriff_original_candidates[k],
        ) by {
            assert(!(g.undecided())(k));
            lemma_has_decided(g, g.sheriff_original_candidates[k]);
        }
    }
}

/// A vote in the election counts for the voter who gave it and for whom it names. Candidates
/// do not vote, and only candidates are voted for.
pub proof fn law_election_vote(g: GameView, v: usize, target: Option<usize>, other: usize)
    requires
        g.wf(),
        v < g.players.len(),
        target is Some ==> target->0 < g.players.len(),
        g.sheriff_vote_round == 0,
        keys_distinct(g.sheriff_nominations),
    ensures
        ({
            let r = g.cast_sheriff_vote(
                g.players[v as int].open_id,
                match target {
                    Some(t) => Some(g.players[t as int].open_id),
                    None => None,
                },
            );
            &&& r is Ok <==> {
                &&& g.stage == Stage::SheriffVote
                &&& g.players[v as int].alive || g.day == 1 && g.last_night_deaths.contains(v)
                &&& !g.sheriff_original_candidates.contains(v)
                &&& target is Some ==> says_yes(g.sheriff_nominations, target->0)
            }
            &&& r is Ok ==> get_key(r->Ok_0.sheriff_votes, v) == Some(target)
            &&& r is Ok && other != v ==> get_key(r->Ok_0.sheriff_votes, other) == get_key(
                g.sheriff_votes,
                other,
            )
        }),
{
    law_seat_of(g, v);
    lemma_indices_where(g.players.len(), g.elects());
    assert((g.elects())(v as int) == ((g.players[v as int].alive || g.day == 1
        && g.last_night_deaths.contains(v)) && !g.sheriff_original_candidates.contains(v)));
    law_put_get(g.sheriff_votes, v, target, other);
    if target is Some {
        law_seat_of(g, target->0);
        law_running_are_those_who_said_so(g.sheriff_nominations, target->0);
    }
}

/// In the second round of the election only those tied in the first are voted for.
pub proof fn law_runoff_vote(g: GameView, v: usize, t: usize)
    requires
        g.wf(),
        v < g.players.len(),
        t < g.players.len(),
        g.sheriff_vote_round == 1,
        g.sheriff_pk_candidates.len() > 0,
        g.cast_sheriff_vote(g.players[v as int].open_id, Some(g.players[t as int].open_id)) is Ok,
    ensures
        g.sheriff_pk_candidates.contains(t),
        get_key(
            g.cast_sheriff_vote(
                g.players[v as int].open_id,
                Some(g.players[t as int].open_id),
            )->Ok_0.sheriff_votes,
            v,
        ) == Some(Some(t)),
{
    law_seat_of(g, v);
    law_seat_of(g, t);
    law_put_get(g.sheriff_votes, v, Some(t), v);
}

/// How many voters have named a seat.
pub open spec fn named(votes: Seq<(usize, Option<usize>)>, t: usize) -> nat {
    votes.filter(|p: (usize, Option<usize>)| p.1 == Some(t)).len()
}

/// Whether somebody has named a seat.
pub open spec fn is_named(votes: Seq<(usize, Option<usize>)>, t: usize) -> bool {
    exists|k: int| 0 <= k < votes.len() && (#[trigger] votes[k]).1 == Some(t)
}

/// Those who got votes are those whom somebody named.
pub proof fn lemma_targets_are_named(votes: Seq<(usize, Option<usize>)>, t: usize)
    ensures
        targets(votes).contains(t) <==> is_named(votes, t),
        is_named(votes, t) <==> named(votes, t) > 0,
    decreases votes.len(),
{
    let f = |p: (usize, Option<usize>)| p.1 == Some(t);
    reveal(Seq::filter);
    if votes.len() > 0 {
        let rest = votes.drop_last();
        lemma_targets_are_named(rest, t);
        assert(votes[votes.len() - 1] == votes.last());
        let a = targets(rest);
        let b = targets(votes);
        if is_named(rest, t) {
            let k = choose|k: int| 0 <= k < rest.len() && (#[trigger] rest[k]).1 == Some(t);
            assert(votes[k].1 == Some(t));
        }
        if is_named(votes, t) {
            let k = choose|k: int| 0 <= k < votes.len() && (#[trigger] votes[k]).1 == Some(t);
            if k < rest.len() {
                assert(rest[k].1 == Some(t));
            }
        }
        if a.contains(t) {
            let k = choose|k: int| 0 <= k < a.len() && a[k] == t;
            assert(b[k] == t);
        }
        if b.contains(t) {
            let k = choose|k: int| 0 <= k < b.len() && b[k] == t;
            if k < a.len() {
                assert(a[k] == t);
            }
        }
        if votes.last().1 == Some(t) && !a.contains(t) {
            assert(b[b.len() - 1] == t);
        }
    }
}

/// With equal weights a seat gets as many votes as voters have named it.
pub proof fn lemma_equal_votes(votes: Seq<(usize, Option<usize>)>, t: usize)
    ensures
        votes_for(votes, equal_weights(), t) == named(votes, t),
    decreases votes.len(),
{
    reveal(Seq::filter);
    if votes.len() > 0 {
        lemma_equal_votes(votes.drop_last(), t);
    }
}

/// What the leaders of a vote are, given what each seat has got.
pub proof fn lemma_who_leads(
    votes: Seq<(usize, Option<usize>)>,
    w: Weights,
    got: spec_fn(usize) -> nat,
    t: usize,
)
    requires
        forall|u: usize| #[trigger] votes_for(votes, w, u) == got(u),
        forall|u: usize| #[trigger] is_named(votes, u) <==> got(u) > 0,
    ensures
        leaders(votes, w).no_duplicates(),
        leaders(votes, w).len() == 0 <==> forall|u: usize| #[trigger] got(u) == 0,
        leaders(votes, w).contains(t) <==> got(t) > 0 && forall|u: usize| #[trigger]
            got(u) <= got(t),
        (got(t) > 0 && forall|u: usize| u != t ==> #[trigger] got(u) < got(t)) ==> leaders(votes, w)
            == seq![t],
{
    let l = leaders(votes, w);
    let ts = targets(votes);
    crate::werewolf::tally::lemma_unbeaten(ts, votes, w);
    law_somebody_leads(votes, w);
    assert(ts.no_duplicates()) by {
        lemma_targets_distinct(votes);
    }
    assert forall|u: usize| ts.contains(u) == (#[trigger] got(u) > 0) by {
        lemma_targets_are_named(votes, u);
        assert(is_named(votes, u) <==> got(u) > 0);
    }
    assert forall|u: usize| l.contains(u) implies got(u) > 0 && forall|x: usize| #[trigger]
        got(x) <= got(u) by {
        law_leaders(votes, w, u, u);
        assert forall|x: usize| #[trigger] got(x) <= got(u) by {
            law_leaders(votes, w, u, x);
            assert(votes_for(votes, w, x) == got(x));
            assert(votes_for(votes, w, u) == got(u));
        }
    }
    if got(t) > 0 && forall|u: usize| #[trigger] got(u) <= got(t) {
        assert(crate::werewolf::tally::is_top(votes, w, t)) by {
            assert forall|u: usize| #[trigger] ts.contains(u) implies votes_for(votes, w, u)
                <= votes_for(votes, w, t) by {
                assert(got(u) <= got(t));
            }
        }
        assert(ts.contains(t));
        assert(l.contains(t));
    }
    if got(t) > 0 && forall|u: usize| u != t ==> #[trigger] got(u) < got(t) {
        assert forall|u: usize| #[trigger] got(u) <= got(t) by {}
        assert(l.contains(t));
        assert forall|i: int| 0 <= i < l.len() implies l[i] == t by {
            assert(l.contains(l[i]));
            assert(got(t) <= got(l[i]));
        }
        if l.len() >= 2 {
            assert(l[0] != l[1]);
        }
        assert(l =~= seq![t]);
    }
    if l.len() == 0 {
        assert forall|u: usize| #[trigger] got(u) == 0 by {
            assert(!ts.contains(u));
        }
    }
    if forall|u: usize| #[trigger] got(u) == 0 {
        if l.len() > 0 {
            assert(l.contains(l[0]));
            assert(got(l[0]) == 0);
        }
    }
}

proof fn lemma_targets_distinct(votes: Seq<(usize, Option<usize>)>)
    ensures
        targets(votes).no_duplicates(),
    decreases votes.len(),
{
    if votes.len() > 0 {
        lemma_targets_distinct(votes.drop_last());
    }
}

/// The election is won by whom more voters have named than anybody else; with nobody named
/// there is no sheriff. A first tie leads to speeches and a second round among exactly those
/// tied, a second tie to no sheriff.
pub proof fn law_most_named_is_sheriff(g: GameView, t: usize, other: usize)
    requires
        g.wf(),
        g.stage == Stage::SheriffVote,
    ensures
        ({
            let v = g.sheriff_votes;
            let r = g.resolve_sheriff_vote();
            let h = r->Ok_0.0;
            &&& r is Ok
            &&& h.players == g.players
            &&& is_named(v, t) && (forall|u: usize| u != t ==> #[trigger] named(v, u) < named(v, t))
                ==> r->Ok_0.1 == Some(t) && h.sheriff_idx == Some(t) && h.stage == Stage::DayReveal
                && h.event_log == g.event_log.push(g.players[t as int].name + " 当选警长。"@)
            &&& (forall|u: usize| !#[trigger] is_named(v, u)) ==> r->Ok_0.1 is None && h.sheriff_idx
                == g.sheriff_idx && h.stage == Stage::DayReveal
            &&& is_named(v, t) && t != other && named(v, t) == named(v, other) && (forall|u: usize|
                #[trigger] named(v, u) <= named(v, t)) ==> {
                &&& r->Ok_0.1 is None
                &&& h.sheriff_idx == g.sheriff_idx
                &&& g.sheriff_vote_round == 0 ==> h.stage == Stage::SheriffSpeech
                    && h.sheriff_vote_round == 1 && forall|u: usize| #[trigger]
                    h.sheriff_pk_candidates.contains(u) <==> named(v, u) == named(v, t)
                &&& g.sheriff_vote_round == 1 ==> h.stage == Stage::DayReveal
            }
        }),
{
    let v = g.sheriff_votes;
    let w = equal_weights();
    let got = |u: usize| named(v, u);
    let l = leaders(v, w);
    assert forall|u: usize| #[trigger] votes_for(v, w, u) == got(u) by {
        lemma_equal_votes(v, u);
    }
    assert forall|u: usize| #[trigger] is_named(v, u) <==> got(u) > 0 by {
        lemma_targets_are_named(v, u);
    }
    lemma_who_leads(v, w, got, t);
    lemma_who_leads(v, w, got, other);
    if is_named(v, t) && (forall|u: usize| u != t ==> #[trigger] named(v, u) < named(v, t)) {
        assert forall|u: usize| u != t implies #[trigger] got(u) < got(t) by {
            assert(named(v, u) < named(v, t));
        }
    }
    if forall|u: usize| !#[trigger] is_named(v, u) {
        assert forall|u: usize| #[trigger] got(u) == 0 by {
            assert(!is_named(v, u));
        }
    }
    if is_named(v, t) && t != other && named(v, t) == named(v, other) && (forall|u: usize|
        #[trigger] named(v, u) <= named(v, t)) {
        assert forall|u: usize| #[trigger] got(u) <= got(t) by {
            assert(named(v, u) <= named(v, t));
        }
        assert forall|u: usize| #[trigger] got(u) <= got(other) by {
            assert(got(u) <= got(t));
        }
        assert(l.contains(t) && l.contains(other));
        let i = choose|i: int| 0 <= i < l.len() && l[i] == t;
        let j = choose|j: int| 0 <= j < l.len() && l[j] == other;
        assert(l.len() >= 2);
        assert forall|u: usize| #[trigger] l.contains(u) <==> named(v, u) == named(v, t) by {
            lemma_who_leads(v, w, got, u);
            if named(v, u) == named(v, t) {
                assert(got(u) == got(t));
                assert forall|x: usize| #[trigger] got(x) <= got(u) by {
                    assert(got(x) <= got(t));
                }
            }
            if l.contains(u) {
                assert(got(t) <= got(u));
                assert(got(u) <= got(t));
            }
        }
    }
}

} // verus!
