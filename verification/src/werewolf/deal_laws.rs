//! What a shuffle and a deal can come to.

use vstd::prelude::*;
use crate::werewolf::lobby::{draws_fit, is_deal, lemma_swap, shuffled};
use crate::werewolf::table::board;
use crate::werewolf::types::Role;

verus! {

/// A shuffle keeps the entries, whatever is drawn.
pub proof fn law_shuffle_keeps_entries<T>(s: Seq<T>, draws: Seq<usize>, k: nat)
    requires
        draws_fit(draws, s.len()),
    ensures
        shuffled(s, draws, k).len() == s.len(),
        shuffled(s, draws, k).to_multiset() == s.to_multiset(),
    decreases s.len() - k,
{
    if k < s.len() {
        law_shuffle_keeps_entries(s, draws, k + 1);
        lemma_swap(shuffled(s, draws, k + 1), k as int, draws[k as int] as int);
    }
}

/// The exchanges down to a position rest on the draws for it and those after it.
proof fn lemma_later_draws<T>(s: Seq<T>, d: Seq<usize>, e: Seq<usize>, k: nat)
    requires
        forall|i: int| k <= i < s.len() ==> #[trigger] d[i] == e[i],
    ensures
        shuffled(s, d, k) == shuffled(s, e, k),
    decreases s.len() - k,
{
    if k < s.len() {
        lemma_later_draws(s, d, e, k + 1);
        assert(d[k as int] == e[k as int]);
    }
}

/// Of two lists of the same entries that agree after `k`, one holds at or before `k` what
/// the other holds there.
proof fn lemma_not_later<T>(u: Seq<T>, t: Seq<T>, k: int) -> (j: int)
    requires
        u.to_multiset() == t.to_multiset(),
        u.len() == t.len(),
        0 <= k < t.len(),
        forall|i: int| k < i < t.len() ==> #[trigger] u[i] == t[i],
    ensures
        0 <= j <= k,
        u[j] == t[k],
{
    let n = t.len() as int;
    let u1 = u.subrange(0, k + 1);
    let t1 = t.subrange(0, k + 1);
    let tail = t.subrange(k + 1, n);
    assert(u.subrange(k + 1, n) =~= tail);
    assert(u =~= u1 + tail);
    assert(t =~= t1 + tail);
    vstd::seq_lib::lemma_multiset_commutative(u1, tail);
    vstd::seq_lib::lemma_multiset_commutative(t1, tail);
    u1.to_multiset_ensures();
    t1.to_multiset_ensures();
    assert(t1[k] == t[k]);
    assert(t1.contains(t[k]));
    assert(u.to_multiset().count(t[k]) == u1.to_multiset().count(t[k]) + tail.to_multiset().count(
        t[k],
    ));
    assert(t.to_multiset().count(t[k]) == t1.to_multiset().count(t[k]) + tail.to_multiset().count(
        t[k],
    ));
    assert(u1.contains(t[k]));
    let j = choose|j: int| 0 <= j < u1.len() && u1[j] == t[k];
    assert(u[j] == t[k]);
    j
}

/// Draws after which the entries from `k` on stand as in another order.
proof fn lemma_draws_for<T>(s: Seq<T>, t: Seq<T>, k: nat) -> (draws: Seq<usize>)
    requires
        s.to_multiset() == t.to_multiset(),
        s.len() == t.len(),
        s.len() <= usize::MAX,
        k <= s.len(),
    ensures
        draws_fit(draws, s.len()),
        forall|i: int| k <= i < s.len() ==> #[trigger] shuffled(s, draws, k)[i] == t[i],
    decreases s.len() - k,
{
    if k == s.len() {
        Seq::new(s.len(), |i: int| 0usize)
    } else {
        let later = lemma_draws_for(s, t, k + 1);
        let u = shuffled(s, later, k + 1);
        law_shuffle_keeps_entries(s, later, k + 1);
        let j = lemma_not_later(u, t, k as int);
        let draws = later.update(k as int, j as usize);
        lemma_later_draws(s, later, draws, k + 1);
        assert(shuffled(s, draws, k) == u.update(k as int, u[j]).update(j, u[k as int]));
        assert forall|i: int| k <= i < s.len() implies #[trigger] shuffled(s, draws, k)[i]
            == t[i] by {
            if i > k {
                assert(u[i] == t[i]);
            }
        }
        draws
    }
}

/// A shuffle can put the entries into every order there is.
pub proof fn law_shuffle_reaches_every_order<T>(s: Seq<T>, t: Seq<T>)
    requires
        s.to_multiset() == t.to_multiset(),
        s.len() <= usize::MAX,
    ensures
        exists|draws: Seq<usize>|
            draws_fit(draws, s.len()) && t == #[trigger] shuffled(s, draws, 1),
{
    s.to_multiset_ensures();
    t.to_multiset_ensures();
    let draws = lemma_draws_for(s, t, 0);
    law_shuffle_keeps_entries(s, draws, 0);
    law_shuffle_keeps_entries(s, draws, 1);
    let u = shuffled(s, draws, 1);
    if s.len() > 0 {
        assert(draws[0] == 0);
        assert(shuffled(s, draws, 0) =~= u);
    }
    assert(u =~= t) by {
        assert forall|i: int| 0 <= i < u.len() implies u[i] == t[i] by {
            assert(shuffled(s, draws, 0)[i] == t[i]);
        }
    }
}

/// The deals of a board are exactly what shuffles can make of it.
pub proof fn law_deals_are_shuffles(roles: Seq<Role>, n: nat)
    requires
        board(n) is Some,
    ensures
        is_deal(roles, n) <==> exists|draws: Seq<usize>|
            draws_fit(draws, n) && roles == #[trigger] shuffled(board(n)->0, draws, 1),
{
    let b = board(n)->0;
    assert(b.len() == n && n <= 12);
    if is_deal(roles, n) {
        law_shuffle_reaches_every_order(b, roles);
    }
    if exists|draws: Seq<usize>| draws_fit(draws, n) && roles == #[trigger] shuffled(b, draws, 1) {
        let draws = choose|draws: Seq<usize>|
            draws_fit(draws, n) && roles == #[trigger] shuffled(b, draws, 1);
        law_shuffle_keeps_entries(b, draws, 1);
    }
}

} // verus!
