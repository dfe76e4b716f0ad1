//! Lists of pairs used as small maps: a key is looked up at its first pair, and a
//! new key goes to the end, so that the order of first writing is kept.

use vstd::prelude::*;

verus! {

/// The position of the first pair with key `k`, or the length when there is none.
pub open spec fn key_pos<K, V>(s: Seq<(K, V)>, k: K) -> int
    decreases s.len(),
{
    if s.len() == 0 || s[0].0 == k {
        0
    } else {
        1 + key_pos(s.subrange(1, s.len() as int), k)
    }
}

/// Whether some pair has key `k`.
pub open spec fn has_key<K, V>(s: Seq<(K, V)>, k: K) -> bool {
    key_pos(s, k) < s.len()
}

/// The value of the first pair with key `k`.
pub open spec fn get_key<K, V>(s: Seq<(K, V)>, k: K) -> Option<V> {
    if has_key(s, k) {
        Some(s[key_pos(s, k)].1)
    } else {
        None
    }
}

/// Sets the value of the first pair with key `k`; without one, adds a pair at the end.
pub open spec fn put_key<K, V>(s: Seq<(K, V)>, k: K, v: V) -> Seq<(K, V)> {
    if has_key(s, k) {
        s.update(key_pos(s, k), (k, v))
    } else {
        s.push((k, v))
    }
}

/// Whether no key occurs twice.
pub open spec fn keys_distinct<K, V>(s: Seq<(K, V)>) -> bool {
    forall|i: int, j: int| 0 <= i < j < s.len() ==> #[trigger] s[i].0 != #[trigger] s[j].0
}

/// What `key_pos` finds is the first pair with the key.
pub proof fn lemma_key_pos<K, V>(s: Seq<(K, V)>, k: K)
    ensures
        0 <= key_pos(s, k) <= s.len(),
        key_pos(s, k) < s.len() ==> s[key_pos(s, k)].0 == k,
        forall|j: int| 0 <= j < key_pos(s, k) ==> (#[trigger] s[j]).0 != k,
    decreases s.len(),
{
    if s.len() == 0 || s[0].0 == k {
    } else {
        let t = s.subrange(1, s.len() as int);
        lemma_key_pos(t, k);
        assert forall|j: int| 0 <= j < key_pos(s, k) implies (#[trigger] s[j]).0 != k by {
            if j > 0 {
                assert(s[j] == t[j - 1]);
            }
        }
    }
}

/// A position before which the key does not occur and at which it occurs, if the
/// list goes on that far, is the one that `key_pos` finds.
pub proof fn lemma_key_pos_is<K, V>(s: Seq<(K, V)>, k: K, i: int)
    requires
        0 <= i <= s.len(),
        i < s.len() ==> s[i].0 == k,
        forall|j: int| 0 <= j < i ==> (#[trigger] s[j]).0 != k,
    ensures
        key_pos(s, k) == i,
{
    lemma_key_pos(s, k);
}

/// A read after a write: the written key has the written value, every other key
/// the value it had.
pub proof fn law_put_get<K, V>(s: Seq<(K, V)>, k: K, v: V, other: K)
    ensures
        get_key(put_key(s, k, v), k) == Some(v),
        other != k ==> get_key(put_key(s, k, v), other) == get_key(s, other),
{
    lemma_key_pos(s, k);
    lemma_key_pos(s, other);
    let t = put_key(s, k, v);
    lemma_key_pos_is(t, k, key_pos(s, k));
    if other != k {
        let i = key_pos(s, other);
        if i < s.len() {
            lemma_key_pos_is(t, other, i);
        } else {
            lemma_key_pos_is(t, other, t.len() as int);
        }
    }
}

/// Writing keeps the keys distinct.
pub proof fn law_put_distinct<K, V>(s: Seq<(K, V)>, k: K, v: V)
    requires
        keys_distinct(s),
    ensures
        keys_distinct(put_key(s, k, v)),
{
    lemma_key_pos(s, k);
}

/// Looks up the first pair with the key.
pub fn find_key<V>(v: &Vec<(usize, V)>, k: usize) -> (r: usize)
    ensures
        r == key_pos(v@, k),
        r <= v.len(),
{
    let mut i: usize = 0;
    while i < v.len() && v[i].0 != k
        invariant
            i <= v.len(),
            forall|j: int| 0 <= j < i ==> (#[trigger] v@[j]).0 != k,
        decreases v.len() - i,
    {
        i = i + 1;
    }
    proof {
        lemma_key_pos_is(v@, k, i as int);
    }
    i
}

/// Sets the value of a key.
pub fn put<V>(v: &mut Vec<(usize, V)>, k: usize, value: V)
    ensures
        final(v)@ == put_key(old(v)@, k, value),
{
    let i: usize = find_key(v, k);
    if i < v.len() {
        v[i] = (k, value);
    } else {
        v.push((k, value));
    }
}

/// Looking up a key commutes with viewing the texts.
pub proof fn lemma_key_pos_text(v: Seq<(usize, String)>, d: Seq<(usize, Seq<char>)>, k: usize)
    requires
        v.len() == d.len(),
        forall|i: int| 0 <= i < v.len() ==> d[i] == (v[i].0, (#[trigger] v[i]).1@),
    ensures
        key_pos(d, k) == key_pos(v, k),
{
    lemma_key_pos(v, k);
    assert forall|j: int| 0 <= j < key_pos(v, k) implies (#[trigger] d[j]).0 != k by {
        assert(v[j].0 != k);
    }
    lemma_key_pos_is(d, k, key_pos(v, k));
}

/// Sets the text of a key.
pub fn put_text(v: &mut Vec<(usize, String)>, k: usize, value: String)
    ensures
        final(v).deep_view() == put_key(old(v).deep_view(), k, value@),
{
    proof {
        lemma_key_pos_text(v@, v.deep_view(), k);
        lemma_key_pos(v@, k);
    }
    put(v, k, value);
}

/// The text of a key.
pub fn get_text<'a>(v: &'a Vec<(usize, String)>, k: usize) -> (r: Option<&'a str>)
    ensures
        r.deep_view() == get_key(v.deep_view(), k),
{
    proof {
        lemma_key_pos_text(v@, v.deep_view(), k);
    }
    let i: usize = find_key(v, k);
    if i < v.len() {
        Some(v[i].1.as_str())
    } else {
        None
    }
}

/// Looks up the first pair with a text as its key.
pub fn find_name(v: &Vec<(String, String)>, k: &str) -> (r: usize)
    ensures
        r == key_pos(v.deep_view(), k@),
        r <= v.len(),
{
    let key = k.to_owned();
    let mut i: usize = 0;
    while i < v.len() && !(v[i].0 == key)
        invariant
            key@ == k@,
            i <= v.len(),
            forall|j: int| 0 <= j < i ==> (#[trigger] v.deep_view()[j]).0 != k@,
        decreases v.len() - i,
    {
        i = i + 1;
    }
    proof {
        lemma_key_pos_is(v.deep_view(), k@, i as int);
    }
    i
}

/// Sets the text of a name.
pub fn put_name(v: &mut Vec<(String, String)>, k: &str, value: String)
    ensures
        final(v).deep_view() == put_key(old(v).deep_view(), k@, value@),
{
    let i: usize = find_name(v, k);
    if i < v.len() {
        v[i] = (k.to_owned(), value);
    } else {
        v.push((k.to_owned(), value));
    }
}

/// The text of a name.
pub fn get_name<'a>(v: &'a Vec<(String, String)>, k: &str) -> (r: Option<&'a str>)
    ensures
        r.deep_view() == get_key(v.deep_view(), k@),
{
    let i: usize = find_name(v, k);
    if i < v.len() {
        Some(v[i].1.as_str())
    } else {
        None
    }
}

} // verus!
