//! What holds of texts that are trimmed, split and searched.

use vstd::prelude::*;
use crate::text::{alike, ascii_lowered, begins, char_pos, is_white, small_code, trimmed,
    trimmed_end, trimmed_start};
use crate::words::{after_word, first_word, removed, rest, word_end};

verus! {

pub open spec fn all_white(s: Seq<char>, from: int, to: int) -> bool {
    forall|i: int| from <= i < to ==> is_white(#[trigger] s[i])
}

proof fn lemma_start(s: Seq<char>) -> (a: int)
    ensures
        0 <= a <= s.len(),
        trimmed_start(s) == s.subrange(a, s.len() as int),
        all_white(s, 0, a),
        a < s.len() ==> !is_white(s[a]),
    decreases s.len(),
{
    if s.len() > 0 && is_white(s[0]) {
        let t = s.subrange(1, s.len() as int);
        let b = lemma_start(t);
        assert(t.subrange(b, t.len() as int) =~= s.subrange(b + 1, s.len() as int));
        assert forall|i: int| 0 <= i < b + 1 implies is_white(#[trigger] s[i]) by {
            if i > 0 {
                assert(t[i - 1] == s[i]);
            }
        }
        if b < t.len() {
            assert(t[b] == s[b + 1]);
        }
        b + 1
    } else {
        assert(s.subrange(0, s.len() as int) =~= s);
        0
    }
}

proof fn lemma_end(s: Seq<char>) -> (b: int)
    ensures
        0 <= b <= s.len(),
        trimmed_end(s) == s.subrange(0, b),
        all_white(s, b, s.len() as int),
        b > 0 ==> !is_white(s[b - 1]),
    decreases s.len(),
{
    if s.len() > 0 && is_white(s[s.len() - 1]) {
        let t = s.subrange(0, s.len() - 1);
        let b = lemma_end(t);
        assert(t.subrange(0, b) =~= s.subrange(0, b));
        assert forall|i: int| b <= i < s.len() implies is_white(#[trigger] s[i]) by {
            if i < s.len() - 1 {
                assert(t[i] == s[i]);
            }
        }
        if b > 0 {
            assert(t[b - 1] == s[b - 1]);
        }
        b
    } else {
        assert(s.subrange(0, s.len() as int) =~= s);
        s.len() as int
    }
}

/// A trimmed text is the part of the text that is left when the blanks at both ends are gone, and
/// no others: it neither begins nor ends with one.
pub proof fn law_only_outer_blanks_go(s: Seq<char>) -> (r: (int, int))
    ensures
        0 <= r.0 <= r.1 <= s.len(),
        trimmed(s) == s.subrange(r.0, r.1),
        all_white(s, 0, r.0),
        all_white(s, r.1, s.len() as int),
        trimmed(s).len() > 0 ==> !is_white(trimmed(s)[0]) && !is_white(trimmed(s).last()),
{
    let a = lemma_start(s);
    let t = trimmed_start(s);
    let b = lemma_end(t);
    assert(t.subrange(0, b) =~= s.subrange(a, a + b));
    assert forall|i: int| a + b <= i < s.len() implies is_white(#[trigger] s[i]) by {
        assert(t[i - a] == s[i]);
    }
    if b > 0 {
        assert(t[b - 1] == s[a + b - 1]);
        assert(t[0] == s[a]);
    }
    (a, a + b)
}

/// Nothing is trimmed of a text that neither begins nor ends with a blank.
pub proof fn law_bare_text_stays(s: Seq<char>)
    requires
        s.len() > 0 ==> !is_white(s[0]) && !is_white(s.last()),
    ensures
        trimmed(s) == s,
{
}

/// Trimming twice is trimming once.
pub proof fn law_trimming_twice_is_once(s: Seq<char>)
    ensures
        trimmed(trimmed(s)) == trimmed(s),
{
    law_only_outer_blanks_go(s);
    law_bare_text_stays(trimmed(s));
}

proof fn lemma_word_end(s: Seq<char>)
    ensures
        0 <= word_end(s) <= s.len(),
        forall|i: int| 0 <= i < word_end(s) ==> !is_white(#[trigger] s[i]),
        word_end(s) < s.len() ==> is_white(s[word_end(s)]),
    decreases s.len(),
{
    if s.len() > 0 && !is_white(s[0]) {
        let t = rest(s, 1);
        lemma_word_end(t);
        assert forall|i: int| 0 <= i < word_end(s) implies !is_white(#[trigger] s[i]) by {
            if i > 0 {
                assert(t[i - 1] == s[i]);
            }
        }
        if word_end(t) < t.len() {
            assert(t[word_end(t)] == s[word_end(s)]);
        }
    }
}

/// The first word of a text is what stands between its leading blanks and the next blank, and
/// after it comes the rest.
pub proof fn law_first_word_ends_at_a_blank(s: Seq<char>)
    ensures
        trimmed_start(s) == first_word(s) + after_word(s),
        forall|i: int| 0 <= i < first_word(s).len() ==> !is_white(#[trigger] first_word(s)[i]),
        after_word(s).len() > 0 ==> is_white(after_word(s)[0]),
        first_word(s).len() == 0 ==> trimmed_start(s).len() == 0,
{
    let t = trimmed_start(s);
    let a = lemma_start(s);
    lemma_word_end(t);
    assert(t =~= first_word(s) + after_word(s));
    if t.len() > 0 {
        assert(t[0] == s[a]);
    }
}

/// A mention at the front is removed, and a text that nowhere holds it stays as it is.
pub proof fn law_mentions_are_removed(s: Seq<char>, key: Seq<char>)
    requires
        key.len() > 0,
    ensures
        removed(key + s, key) == removed(s, key),
        (forall|i: int| 0 <= i <= s.len() ==> !begins(#[trigger] rest(s, i), key)) ==> removed(s, key)
            == s,
    decreases s.len(),
{
    let t = key + s;
    assert(t.subrange(0, key.len() as int) =~= key);
    assert(rest(t, key.len() as int) =~= s);
    if s.len() > 0 && (forall|i: int|
        0 <= i <= s.len() ==> !begins(#[trigger] rest(s, i), key)) {
        let u = rest(s, 1);
        assert(rest(s, 0) =~= s);
        assert forall|i: int| 0 <= i <= u.len() implies !begins(#[trigger] rest(u, i), key) by {
            assert(rest(u, i) =~= rest(s, i + 1));
        }
        law_mentions_are_removed(u, key);
        assert(seq![s[0]] + u =~= s);
    }
}

/// The place of a character is where it occurs first.
pub proof fn law_first_place(s: Seq<char>, c: char)
    ensures
        0 <= char_pos(s, c) <= s.len(),
        char_pos(s, c) < s.len() ==> s[char_pos(s, c)] == c,
        forall|i: int| 0 <= i < char_pos(s, c) ==> #[trigger] s[i] != c,
    decreases s.len(),
{
    if s.len() > 0 && s[0] != c {
        let t = s.subrange(1, s.len() as int);
        law_first_place(t, c);
        if char_pos(t, c) < t.len() {
            assert(t[char_pos(t, c)] == s[char_pos(s, c)]);
        }
        assert forall|i: int| 0 <= i < char_pos(s, c) implies #[trigger] s[i] != c by {
            if i > 0 {
                assert(t[i - 1] == s[i]);
            }
        }
    }
}

proof fn lemma_small(c: char)
    ensures
        small_code(small_code(c) as char) == small_code(c),
        !('A' <= c && c <= 'Z') ==> small_code(c) as char == c,
        !('A' <= small_code(c) as char && small_code(c) as char <= 'Z'),
{
}

/// A text in small letters differs from the text in the case of letters alone, and holds no
/// capital.
pub proof fn law_small_letters(s: Seq<char>, i: int)
    requires
        0 <= i < s.len(),
    ensures
        ascii_lowered(s).len() == s.len(),
        alike(ascii_lowered(s), s),
        !('A' <= ascii_lowered(s)[i] && ascii_lowered(s)[i] <= 'Z'),
        !('A' <= s[i] && s[i] <= 'Z') ==> ascii_lowered(s)[i] == s[i],
{
    let t = ascii_lowered(s);
    assert forall|j: int| 0 <= j < s.len() implies small_code(#[trigger] t[j]) == small_code(s[j]) by {
        lemma_small(s[j]);
        assert(t[j] == small_code(s[j]) as char);
    }
    lemma_small(s[i]);
    assert(t[i] == small_code(s[i]) as char);
}

} // verus!
