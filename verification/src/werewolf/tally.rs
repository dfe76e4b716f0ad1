//! Counting votes.

use vstd::prelude::*;
use crate::assoc::{find_key, lemma_key_pos};
use crate::werewolf::table::{keys_ok, seat_ok, seats_ok, MAX_SEATS};

verus! {

/// What a vote weighs: `big` of the seat `heavy`, `light` of any other.
#[derive(Clone, Copy)]
pub struct Weights {
    pub heavy: Option<usize>,
    pub light: u32,
    pub big: u32,
}

impl Weights {
    /// The weight of a voter's vote.
    pub open spec fn of(self, voter: usize) -> nat {
        if self.heavy == Some(voter) {
            self.big as nat
        } else {
            self.light as nat
        }
    }
}

/// The weight of all votes for `t`.
pub open spec fn votes_for(votes: Seq<(usize, Option<usize>)>, w: Weights, t: usize) -> nat
    decreases votes.len(),
{
    if votes.len() == 0 {
        0
    } else {
        let rest = votes_for(votes.drop_last(), w, t);
        if votes.last().1 == Some(t) {
            rest + w.of(votes.last().0)
        } else {
            rest
        }
    }
}

/// Who got votes, each once, in the order of the first vote for each.
pub open spec fn targets(votes: Seq<(usize, Option<usize>)>) -> Seq<usize>
    decreases votes.len(),
{
    if votes.len() == 0 {
        Seq::empty()
    } else {
        let rest = targets(votes.drop_last());
        match votes.last().1 {
            Some(t) => if rest.contains(t) {
                rest
            } else {
                rest.push(t)
            },
            None => rest,
        }
    }
}

/// Whether nobody has more votes than `t`.
pub open spec fn is_top(votes: Seq<(usize, Option<usize>)>, w: Weights, t: usize) -> bool {
    forall|u: usize| #[trigger]
        targets(votes).contains(u) ==> votes_for(votes, w, u) <= votes_for(votes, w, t)
}

/// Those of `ts` whom nobody beats.
pub open spec fn unbeaten(
    ts: Seq<usize>,
    votes: Seq<(usize, Option<usize>)>,
    w: Weights,
) -> Seq<usize>
    decreases ts.len(),
{
    if ts.len() == 0 {
        Seq::empty()
    } else if is_top(votes, w, ts.last()) {
        unbeaten(ts.drop_last(), votes, w).push(ts.last())
    } else {
        unbeaten(ts.drop_last(), votes, w)
    }
}

/// Who got the most votes: one winner, several in a tie, nobody if all abstained.
pub open spec fn leaders(votes: Seq<(usize, Option<usize>)>, w: Weights) -> Seq<usize> {
    unbeaten(targets(votes), votes, w)
}

/// Distinct keys below `n` are at most `n`.
pub proof fn lemma_keys_few<V>(s: Seq<(usize, V)>, n: nat)
    requires
        keys_ok(s, n),
    ensures
        s.len() <= n,
{
    let keys = s.map_values(|p: (usize, V)| p.0 as int);
    assert(keys.no_duplicates()) by {
        assert forall|i: int, j: int|
            0 <= i < keys.len() && 0 <= j < keys.len() && i != j implies keys[i] != keys[j] by {
            assert(s[i].0 != s[j].0);
        }
    }
    keys.unique_seq_to_set();
    let all = vstd::set_lib::set_int_range(0, n as int);
    vstd::set_lib::lemma_int_range(0, n as int);
    assert(keys.to_set().subset_of(all)) by {
        assert forall|k: int| keys.to_set().contains(k) implies all.contains(k) by {
            let i = choose|i: int| 0 <= i < keys.len() && keys[i] == k;
            assert(s[i].0 < n);
        }
    }
    vstd::set_lib::lemma_len_subset(keys.to_set(), all);
}

/// What is known of the targets: they are voted for, once each, and are seats.
pub proof fn lemma_targets(votes: Seq<(usize, Option<usize>)>, n: nat)
    requires
        forall|i: int| 0 <= i < votes.len() ==> seat_ok((#[trigger] votes[i]).1, n),
    ensures
        seats_ok(targets(votes), n),
        targets(votes).no_duplicates(),
    decreases votes.len(),
{
    if votes.len() > 0 {
        assert forall|i: int| 0 <= i < votes.drop_last().len() implies seat_ok(
            (#[trigger] votes.drop_last()[i]).1,
            n,
        ) by {
            assert(votes[i] == votes.drop_last()[i]);
        }
        lemma_targets(votes.drop_last(), n);
        assert(seat_ok(votes[votes.len() - 1].1, n));
    }
}

/// The leaders are among the targets, in the same order, and nobody beats them.
pub proof fn lemma_unbeaten(ts: Seq<usize>, votes: Seq<(usize, Option<usize>)>, w: Weights)
    ensures
        forall|i: int|
            0 <= i < unbeaten(ts, votes, w).len() ==> ts.contains(
                #[trigger] unbeaten(ts, votes, w)[i],
            ) && is_top(votes, w, unbeaten(ts, votes, w)[i]),
        forall|t: usize| #[trigger]
            ts.contains(t) && is_top(votes, w, t) ==> unbeaten(ts, votes, w).contains(t),
        ts.no_duplicates() ==> unbeaten(ts, votes, w).no_duplicates(),
        unbeaten(ts, votes, w).len() <= ts.len(),
    decreases ts.len(),
{
    if ts.len() > 0 {
        let rest = ts.drop_last();
        let less = unbeaten(rest, votes, w);
        let more = unbeaten(ts, votes, w);
        lemma_unbeaten(rest, votes, w);
        assert forall|i: int| 0 <= i < more.len() implies ts.contains(#[trigger] more[i]) && is_top(
            votes,
            w,
            more[i],
        ) by {
            if i < less.len() {
                assert(more[i] == less[i]);
                assert(rest.contains(less[i]));
                let k = choose|k: int| 0 <= k < rest.len() && rest[k] == less[i];
                assert(ts[k] == less[i]);
            } else {
                assert(ts[ts.len() - 1] == more[i]);
            }
        }
        assert forall|t: usize| #[trigger] ts.contains(t) && is_top(votes, w, t) implies more.contains(
            t,
        ) by {
            if t == ts.last() {
                assert(more[more.len() - 1] == t);
            } else {
                let k = choose|k: int| 0 <= k < ts.len() && ts[k] == t;
                assert(rest[k] == t);
                assert(rest.contains(t));
                let m = choose|m: int| 0 <= m < less.len() && less[m] == t;
                assert(more[m] == t);
            }
        }
        if ts.no_duplicates() {
            assert forall|i: int, j: int| 0 <= i < more.len() && 0 <= j < more.len() && i
                != j implies more[i] != more[j] by {
                if more.len() > less.len() {
                    if i < less.len() && j < less.len() {
                        assert(less[i] != less[j]);
                    } else {
                        let o = if i < less.len() {
                            i
                        } else {
                            j
                        };
                        assert(rest.contains(less[o]));
                        let k = choose|k: int| 0 <= k < rest.len() && rest[k] == less[o];
                        assert(ts[k] != ts[ts.len() - 1]);
                        assert(ts.last() == ts[ts.len() - 1]);
                    }
                }
            }
        }
    }
}

/// The leaders: seats, each once; there are some exactly if somebody got a vote.
pub proof fn lemma_leaders(votes: Seq<(usize, Option<usize>)>, w: Weights, n: nat)
    requires
        forall|i: int| 0 <= i < votes.len() ==> seat_ok((#[trigger] votes[i]).1, n),
    ensures
        seats_ok(leaders(votes, w), n),
        leaders(votes, w).no_duplicates(),
{
    lemma_targets(votes, n);
    lemma_unbeaten(targets(votes), votes, w);
    assert forall|i: int| 0 <= i < leaders(votes, w).len() implies #[trigger] leaders(votes, w)[i]
        < n by {
        let t = leaders(votes, w)[i];
        assert(targets(votes).contains(t));
        let k = choose|k: int| 0 <= k < targets(votes).len() && targets(votes)[k] == t;
        assert(targets(votes)[k] < n);
    }
}

/// What each target got, in the order of the first vote for each.
pub fn count_votes(votes: &Vec<(usize, Option<usize>)>, w: Weights) -> (r: Vec<(usize, u32)>)
    requires
        votes.len() <= MAX_SEATS,
        w.light <= 3,
        w.big <= 3,
    ensures
        r.len() == targets(votes@).len(),
        forall|j: int|
            0 <= j < r.len() ==> (#[trigger] r@[j]).0 == targets(votes@)[j] && r@[j].1 == votes_for(
                votes@,
                w,
                r@[j].0,
            ),
{
    let mut r: Vec<(usize, u32)> = Vec::new();
    let mut i: usize = 0;
    while i < votes.len()
        invariant
            i <= votes.len() <= MAX_SEATS,
            w.light <= 3,
            w.big <= 3,
            r.len() == targets(votes@.take(i as int)).len(),
            forall|j: int|
                0 <= j < r.len() ==> (#[trigger] r@[j]).0 == targets(votes@.take(i as int))[j]
                    && r@[j].1 == votes_for(votes@.take(i as int), w, r@[j].0) && r@[j].1 <= 3 * i,
            forall|t: usize|
                !targets(votes@.take(i as int)).contains(t) ==> #[trigger] votes_for(
                    votes@.take(i as int),
                    w,
                    t,
                ) == 0,
            targets(votes@.take(i as int)).no_duplicates(),
        decreases votes.len() - i,
    {
        let ghost done = votes@.take(i as int);
        let ghost more = votes@.take(i + 1);
        proof {
            assert(more.drop_last() =~= done);
            assert(more.last() == votes@[i as int]);
        }
        let voter: usize = votes[i].0;
        let ghost before = r@;
        if let Some(t) = votes[i].1 {
            let weight: u32 = if w.heavy == Some(voter) {
                w.big
            } else {
                w.light
            };
            let p: usize = find_key(&r, t);
            proof {
                lemma_key_pos(r@, t);
            }
            if p < r.len() {
                assert(targets(done)[p as int] == t);
                assert(targets(done).contains(t));
                let c: u32 = r[p].1;
                r[p] = (t, c + weight);
                assert forall|j: int| 0 <= j < r.len() implies (#[trigger] r@[j]).0 == targets(
                    more,
                )[j] && r@[j].1 == votes_for(more, w, r@[j].0) && r@[j].1 <= 3 * (i + 1) by {
                    if j != p {
                        assert(r@[j] == before[j]);
                        assert(targets(done)[j] != targets(done)[p as int]);
                    }
                }
            } else {
                assert(!targets(done).contains(t)) by {
                    if targets(done).contains(t) {
                        let k = choose|k: int| 0 <= k < targets(done).len() && targets(done)[k] == t;
                        assert(r@[k].0 == t);
                    }
                }
                r.push((t, weight));
                assert(votes_for(done, w, t) == 0);
                assert forall|j: int| 0 <= j < r.len() implies (#[trigger] r@[j]).0 == targets(
                    more,
                )[j] && r@[j].1 == votes_for(more, w, r@[j].0) && r@[j].1 <= 3 * (i + 1) by {
                    if j < before.len() {
                        assert(r@[j] == before[j]);
                        assert(targets(done).contains(targets(done)[j]));
                    }
                }
            }
            assert forall|u: usize| !targets(more).contains(u) implies #[trigger] votes_for(
                more,
                w,
                u,
            ) == 0 by {
                if targets(done).contains(u) {
                    let k = choose|k: int| 0 <= k < targets(done).len() && targets(done)[k] == u;
                    assert(targets(more)[k] == u);
                }
                if u == t {
                    if !targets(done).contains(t) {
                        assert(targets(more)[targets(more).len() - 1] == t);
                    }
                }
                assert(votes_for(done, w, u) == 0);
            }
            assert(targets(more).no_duplicates());
        } else {
            assert forall|u: usize| !targets(more).contains(u) implies #[trigger] votes_for(
                more,
                w,
                u,
            ) == 0 by {
                assert(votes_for(done, w, u) == 0);
            }
        }
        i = i + 1;
    }
    assert(votes@.take(i as int) =~= votes@);
    r
}

/// Who got the most votes.
pub fn vote_leaders(votes: &Vec<(usize, Option<usize>)>, w: Weights) -> (r: Vec<usize>)
    requires
        votes.len() <= MAX_SEATS,
        w.light <= 3,
        w.big <= 3,
    ensures
        r@ == leaders(votes@, w),
        r.len() == 0 <==> targets(votes@).len() == 0,
{
    let tally = count_votes(votes, w);
    let mut best: usize = 0;
    let mut i: usize = 0;
    let ghost ts = targets(votes@);
    while i < tally.len()
        invariant
            i <= tally.len(),
            best < tally.len() || (i == 0 && best == 0),
            best < i || i == 0,
            forall|j: int| 0 <= j < i ==> (#[trigger] tally@[j]).1 <= tally@[best as int].1,
        decreases tally.len() - i,
    {
        if i == 0 || tally[i].1 > tally[best].1 {
            best = i;
        }
        i = i + 1;
    }
    let mut top: Vec<usize> = Vec::new();
    let mut k: usize = 0;
    assert(ts.take(0) =~= Seq::empty());
    while k < tally.len()
        invariant
            k <= tally.len(),
            tally.len() == ts.len(),
            ts == targets(votes@),
            best < tally.len() || tally.len() == 0,
            forall|j: int| 0 <= j < tally.len() ==> (#[trigger] tally@[j]).1 <= tally@[best as int].1,
            forall|j: int|
                0 <= j < tally.len() ==> (#[trigger] tally@[j]).0 == ts[j] && tally@[j].1
                    == votes_for(votes@, w, tally@[j].0),
            top@ == unbeaten(ts.take(k as int), votes@, w),
            best < k ==> top.len() > 0,
        decreases tally.len() - k,
    {
        proof {
            assert(ts.take(k + 1).drop_last() =~= ts.take(k as int));
            let t = ts[k as int];
            assert(tally@[k as int].0 == t);
            if tally@[k as int].1 == tally@[best as int].1 {
                assert forall|u: usize| #[trigger] ts.contains(u) implies votes_for(votes@, w, u)
                    <= votes_for(votes@, w, t) by {
                    let m = choose|m: int| 0 <= m < ts.len() && ts[m] == u;
                    assert(tally@[m].0 == u);
                }
                assert(is_top(votes@, w, t));
            } else {
                let u = ts[best as int];
                assert(ts.contains(u));
                assert(tally@[best as int].0 == u);
                assert(!is_top(votes@, w, t));
            }
        }
        if tally[k].1 == tally[best].1 {
            top.push(tally[k].0);
        }
        k = k + 1;
    }
    assert(ts.take(k as int) =~= ts);
    top
}

} // verus!
