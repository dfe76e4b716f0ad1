//! Positions that satisfy a condition.

use vstd::prelude::*;

verus! {

/// The positions below `n` that satisfy `keep`, in ascending order.
pub open spec fn indices_where(n: nat, keep: spec_fn(int) -> bool) -> Seq<usize>
    decreases n,
{
    if n == 0 {
        Seq::empty()
    } else if keep(n - 1) {
        indices_where((n - 1) as nat, keep).push((n - 1) as usize)
    } else {
        indices_where((n - 1) as nat, keep)
    }
}

/// How many positions below `n` satisfy `keep`.
pub open spec fn count_where(n: nat, keep: spec_fn(int) -> bool) -> nat
    decreases n,
{
    if n == 0 {
        0
    } else if keep(n - 1) {
        count_where((n - 1) as nat, keep) + 1
    } else {
        count_where((n - 1) as nat, keep)
    }
}

/// The first position from `i` on that satisfies `keep`, or `n`.
pub open spec fn first_from(i: int, n: int, keep: spec_fn(int) -> bool) -> int
    decreases n - i,
{
    if i >= n {
        n
    } else if keep(i) {
        i
    } else {
        first_from(i + 1, n, keep)
    }
}

/// A position as an index, if it lies below `n`.
pub open spec fn index_below(i: int, n: int) -> Option<usize> {
    if i < n {
        Some(i as usize)
    } else {
        None
    }
}

/// The first position that satisfies `keep`.
pub open spec fn first_where(n: nat, keep: spec_fn(int) -> bool) -> Option<usize> {
    index_below(first_from(0, n as int, keep), n as int)
}

/// `indices_where` lists exactly the positions that satisfy the condition, each once.
pub proof fn lemma_indices_where(n: nat, keep: spec_fn(int) -> bool)
    requires
        n <= usize::MAX,
    ensures
        forall|x: usize| #[trigger] indices_where(n, keep).contains(x) <==> (x < n && keep(x as int)),
        forall|i: int, j: int|
            0 <= i < j < indices_where(n, keep).len() ==> indices_where(n, keep)[i] < indices_where(
                n,
                keep,
            )[j],
        indices_where(n, keep).len() == count_where(n, keep),
        count_where(n, keep) <= n,
    decreases n,
{
    if n > 0 {
        let m = (n - 1) as nat;
        lemma_indices_where(m, keep);
        let s = indices_where(m, keep);
        let t = indices_where(n, keep);
        assert forall|i: int| 0 <= i < s.len() implies #[trigger] s[i] < m by {
            assert(s.contains(s[i]));
        }
        assert forall|x: usize| #[trigger] t.contains(x) <==> (x < n && keep(x as int)) by {
            if t.contains(x) {
                let i = choose|i: int| 0 <= i < t.len() && t[i] == x;
                if i < s.len() {
                    assert(s[i] == x);
                    assert(s.contains(x));
                }
            }
            if x < n && keep(x as int) {
                if x == m {
                    assert(t[t.len() - 1] == x);
                } else {
                    assert(s.contains(x));
                    let i = choose|i: int| 0 <= i < s.len() && s[i] == x;
                    assert(t[i] == x);
                }
            }
        }
    }
}

/// `first_from` finds the first position that satisfies the condition.
pub proof fn lemma_first_from(i: int, n: int, keep: spec_fn(int) -> bool)
    requires
        i <= n,
    ensures
        i <= first_from(i, n, keep) <= n,
        first_from(i, n, keep) < n ==> keep(first_from(i, n, keep)),
        forall|j: int| i <= j < first_from(i, n, keep) ==> !#[trigger] keep(j),
    decreases n - i,
{
    if i < n && !keep(i) {
        lemma_first_from(i + 1, n, keep);
    }
}

/// A position before which the condition fails and at which it holds, if it lies
/// below `n`, is the one that `first_from` finds.
pub proof fn lemma_first_is(n: int, keep: spec_fn(int) -> bool, k: int)
    requires
        0 <= k <= n,
        k < n ==> keep(k),
        forall|j: int| 0 <= j < k ==> !#[trigger] keep(j),
    ensures
        first_from(0, n, keep) == k,
{
    lemma_first_from(0, n, keep);
}

/// What `f` makes of the entries that satisfy `keep`, in order.
pub open spec fn pick<A, B>(
    s: Seq<A>,
    keep: spec_fn(A) -> bool,
    f: spec_fn(A) -> B,
) -> Seq<B>
    decreases s.len(),
{
    if s.len() == 0 {
        Seq::empty()
    } else if keep(s.last()) {
        pick(s.drop_last(), keep, f).push(f(s.last()))
    } else {
        pick(s.drop_last(), keep, f)
    }
}

/// Every entry of `pick` comes from an entry that satisfies the condition.
pub proof fn lemma_pick_from<A, B>(
    s: Seq<A>,
    keep: spec_fn(A) -> bool,
    f: spec_fn(A) -> B,
    k: int,
) -> (i: int)
    requires
        0 <= k < pick(s, keep, f).len(),
    ensures
        0 <= i < s.len(),
        keep(s[i]),
        pick(s, keep, f)[k] == f(s[i]),
    decreases s.len(),
{
    let rest = s.drop_last();
    if keep(s.last()) && k == pick(s, keep, f).len() - 1 {
        s.len() - 1
    } else {
        lemma_pick_from(rest, keep, f, k)
    }
}

/// One more entry in `pick`.
pub proof fn lemma_pick_step<A, B>(
    s: Seq<A>,
    keep: spec_fn(A) -> bool,
    f: spec_fn(A) -> B,
    i: int,
)
    requires
        0 <= i < s.len(),
    ensures
        pick(s.take(i + 1), keep, f) == (if keep(s[i]) {
            pick(s.take(i), keep, f).push(f(s[i]))
        } else {
            pick(s.take(i), keep, f)
        }),
        s.take(s.len() as int) == s,
        s.take(0) == Seq::<A>::empty(),
{
    assert(s.take(i + 1).drop_last() =~= s.take(i));
    assert(s.take(i + 1).last() == s[i]);
    assert(s.take(s.len() as int) =~= s);
    assert(s.take(0) =~= Seq::<A>::empty());
}

/// The ends of a list.
pub proof fn lemma_take_ends<A>(s: Seq<A>)
    ensures
        s.take(s.len() as int) == s,
        s.take(0) == Seq::<A>::empty(),
{
    assert(s.take(s.len() as int) =~= s);
    assert(s.take(0) =~= Seq::<A>::empty());
}

/// One more entry in a mapped list.
pub proof fn lemma_map_step<A, B>(s: Seq<A>, f: spec_fn(A) -> B, i: int)
    requires
        0 <= i < s.len(),
    ensures
        s.take(i + 1).map_values(f) == s.take(i).map_values(f).push(f(s[i])),
{
    assert(s.take(i + 1).map_values(f) =~= s.take(i).map_values(f).push(f(s[i])));
}

/// Whether the list holds the number.
pub fn holds(v: &Vec<usize>, x: usize) -> (r: bool)
    ensures
        r == v@.contains(x),
{
    let mut i: usize = 0;
    while i < v.len()
        invariant
            i <= v.len(),
            forall|j: int| 0 <= j < i ==> v@[j] != x,
        decreases v.len() - i,
    {
        if v[i] == x {
            assert(v@[i as int] == x);
            return true;
        }
        i = i + 1;
    }
    false
}

/// A copy of the list.
pub fn copy_of(v: &Vec<usize>) -> (r: Vec<usize>)
    ensures
        r@ == v@,
{
    let r = v.clone();
    assert(r@ =~= v@);
    r
}

} // verus!
