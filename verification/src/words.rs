//! Words, lines and numbers in texts.

use vstd::prelude::*;
use crate::text::{begins, begins_with, is_white, trim_start, trimmed_start, white};

verus! {

/// `s` from position `i` on.
pub open spec fn rest(s: Seq<char>, i: int) -> Seq<char> {
    s.subrange(i, s.len() as int)
}

/// `s` without every occurrence of `key`, taken from the left and without overlap.
pub open spec fn removed(s: Seq<char>, key: Seq<char>) -> Seq<char>
    decreases s.len(),
{
    if key.len() == 0 || s.len() == 0 {
        s
    } else if begins(s, key) {
        removed(rest(s, key.len() as int), key)
    } else {
        seq![s[0]] + removed(rest(s, 1), key)
    }
}

/// The text without every occurrence of `key`.
pub fn remove_all(s: &str, key: &str) -> (r: String)
    ensures
        r@ == removed(s@, key@),
{
    let n: usize = s.unicode_len();
    let k: usize = key.unicode_len();
    if k == 0 {
        return s.to_owned();
    }
    let mut r = String::new();
    let mut i: usize = 0;
    assert(rest(s@, 0) =~= s@);
    assert(r@ + removed(s@, key@) =~= removed(s@, key@));
    while i < n
        invariant
            n == s@.len(),
            k == key@.len(),
            k > 0,
            i <= n,
            r@ + removed(rest(s@, i as int), key@) == removed(s@, key@),
        decreases n - i,
    {
        let tail = s.substring_char(i, n);
        assert(tail@ == rest(s@, i as int));
        if begins_with(tail, key) {
            assert(rest(tail@, k as int) =~= rest(s@, i + k));
            i = i + k;
        } else {
            let ghost before = r@;
            r.append(s.substring_char(i, i + 1));
            assert(rest(tail@, 1) =~= rest(s@, i + 1));
            assert(r@ =~= before + seq![tail@[0]]);
            assert(r@ + removed(rest(s@, i + 1), key@) =~= before + (seq![tail@[0]] + removed(
                rest(tail@, 1),
                key@,
            )));
            i = i + 1;
        }
    }
    assert(rest(s@, i as int) =~= Seq::<char>::empty());
    assert(r@ + Seq::<char>::empty() =~= r@);
    r
}

/// The position of the first white space, or the length.
pub open spec fn word_end(s: Seq<char>) -> int
    decreases s.len(),
{
    if s.len() == 0 || is_white(s[0]) {
        0
    } else {
        1 + word_end(rest(s, 1))
    }
}

/// The first word of a text, which is empty if there is none.
pub open spec fn first_word(s: Seq<char>) -> Seq<char> {
    let t = trimmed_start(s);
    t.subrange(0, word_end(t))
}

/// What follows the first word.
pub open spec fn after_word(s: Seq<char>) -> Seq<char> {
    let t = trimmed_start(s);
    rest(t, word_end(t))
}

/// Splits a text after its first word.
pub fn split_word<'a>(s: &'a str) -> (r: (&'a str, &'a str))
    ensures
        r.0@ == first_word(s@),
        r.1@ == after_word(s@),
{
    let t = trim_start(s);
    let n: usize = t.unicode_len();
    let mut i: usize = 0;
    assert(rest(t@, 0) =~= t@);
    while i < n && !white(t.get_char(i))
        invariant
            n == t@.len(),
            i <= n,
            word_end(t@) == i + word_end(rest(t@, i as int)),
        decreases n - i,
    {
        assert(rest(rest(t@, i as int), 1) =~= rest(t@, i + 1));
        i = i + 1;
    }
    (t.substring_char(0, i), t.substring_char(i, n))
}

/// A text as Rust's debug format writes it.
pub uninterp spec fn debug_text(s: Seq<char>) -> Seq<char>;

/// Whether the debug format writes a character as it is.
pub open spec fn plain_char(c: char) -> bool {
    0x20 <= c as u32 <= 0x7E && c != '"' && c != '\\'
}

/// Formats a text with `format!("{:?}")`. The contract names the result, which depends on
/// the text alone, and claims of texts of printable ASCII without quotation marks and
/// backslashes that they are put between quotation marks.
#[verifier::external_body]
pub(crate) fn debug_quoted(s: &str) -> (r: String)
    ensures
        r@ == debug_text(s@),
        (forall|i: int| 0 <= i < s@.len() ==> plain_char(#[trigger] s@[i])) ==> r@ == "\""@ + s@
            + "\""@,
{
    format!("{:?}", s)
}

// ---- numbers ----

/// Whether a character is a decimal digit.
pub open spec fn is_digit(c: char) -> bool {
    0x30 <= c as u32 <= 0x39
}

/// Whether a text consists of decimal digits.
pub open spec fn all_digits(s: Seq<char>) -> bool {
    forall|i: int| 0 <= i < s.len() ==> is_digit(#[trigger] s[i])
}

/// The number that digits write.
pub open spec fn digits_value(s: Seq<char>) -> nat
    decreases s.len(),
{
    if s.len() == 0 {
        0
    } else {
        10 * digits_value(s.drop_last()) + (s.last() as u32 - 0x30) as nat
    }
}

/// A text without a leading plus sign.
pub open spec fn unsigned_part(s: Seq<char>) -> Seq<char> {
    if s.len() > 0 && s[0] == '+' {
        rest(s, 1)
    } else {
        s
    }
}

/// The 32-bit number that a text writes: digits, perhaps after a plus sign.
pub open spec fn number_in(s: Seq<char>) -> Option<u32> {
    let d = unsigned_part(s);
    if d.len() > 0 && all_digits(d) && digits_value(d) <= u32::MAX {
        Some(digits_value(d) as u32)
    } else {
        None
    }
}

proof fn lemma_value_grows(s: Seq<char>, i: int)
    requires
        0 <= i <= s.len(),
        all_digits(s),
    ensures
        digits_value(s.take(i)) <= digits_value(s),
    decreases s.len() - i,
{
    if i < s.len() {
        lemma_value_grows(s, i + 1);
        assert(s.take(i + 1).drop_last() =~= s.take(i));
        assert(is_digit(s[i]));
    } else {
        assert(s.take(i) =~= s);
    }
}

/// The 32-bit number that a text writes.
pub fn parse_u32(s: &str) -> (r: Option<u32>)
    ensures
        r == number_in(s@),
{
    let m: usize = s.unicode_len();
    let d = if m > 0 && s.get_char(0) == '+' {
        s.substring_char(1, m)
    } else {
        s
    };
    assert(d@ =~= unsigned_part(s@));
    let n: usize = d.unicode_len();
    if n == 0 {
        return None;
    }
    let mut value: u64 = 0;
    let mut i: usize = 0;
    while i < n
        invariant
            n == d@.len(),
            i <= n,
            n > 0,
            d@ == unsigned_part(s@),
            all_digits(d@.take(i as int)),
            value == digits_value(d@.take(i as int)),
            value <= u32::MAX,
        decreases n - i,
    {
        let c: u32 = d.get_char(i) as u32;
        if c < 0x30 || c > 0x39 {
            assert(!is_digit(d@[i as int]));
            return None;
        }
        let ghost t = d@.take(i + 1);
        assert(t.drop_last() =~= d@.take(i as int));
        value = value * 10 + (c - 0x30) as u64;
        assert(all_digits(t)) by {
            assert forall|j: int| 0 <= j < t.len() implies is_digit(#[trigger] t[j]) by {
                if j < i {
                    assert(d@.take(i as int)[j] == t[j]);
                    assert(is_digit(d@.take(i as int)[j]));
                }
            }
        }
        if value > 0xffff_ffff {
            proof {
                if all_digits(d@) {
                    lemma_value_grows(d@, i + 1);
                }
            }
            return None;
        }
        i = i + 1;
    }
    assert(d@.take(n as int) =~= d@);
    Some(value as u32)
}

/// Decimal digits are read back.
pub proof fn lemma_decimal_digits(n: nat)
    ensures
        all_digits(crate::text::decimal_text(n)),
        digits_value(crate::text::decimal_text(n)) == n,
        crate::text::decimal_text(n).len() > 0,
    decreases n,
{
    let t = crate::text::decimal_text(n);
    reveal_strlit("0");
    reveal_strlit("1");
    reveal_strlit("2");
    reveal_strlit("3");
    reveal_strlit("4");
    reveal_strlit("5");
    reveal_strlit("6");
    reveal_strlit("7");
    reveal_strlit("8");
    reveal_strlit("9");
    if n < 10 {
        assert(t.len() == 1);
        assert(t.drop_last() =~= Seq::<char>::empty());
        assert(digits_value(Seq::<char>::empty()) == 0);
    } else {
        lemma_decimal_digits(n / 10);
        let head = crate::text::decimal_text(n / 10);
        assert(t.drop_last() =~= head);
        assert forall|i: int| 0 <= i < t.len() implies is_digit(#[trigger] t[i]) by {
            if i < head.len() {
                assert(is_digit(head[i]));
            }
        }
    }
}

/// A number that was written is read back.
pub proof fn law_number_reads_back(n: u32)
    ensures
        number_in(crate::text::decimal_text(n as nat)) == Some(n),
{
    lemma_decimal_digits(n as nat);
    let t = crate::text::decimal_text(n as nat);
    assert(is_digit(t[0]));
    assert(unsigned_part(t) == t);
}

} // verus!
