//! Decimal numerals: the whole seconds of an instant written with a
//! fraction.

use vstd::prelude::*;
use vstd::string::*;

verus! {

/// Whether `c` is one of the ten decimal digits.
pub open spec fn is_digit(c: char) -> bool {
    '0' <= c && c <= '9'
}

/// Whether `s` holds decimal digits only.
pub open spec fn all_digits(s: Seq<char>) -> bool {
    forall|i: int| 0 <= i < s.len() ==> is_digit(#[trigger] s[i])
}

/// The number that the digits `s` write, the last digit counting least.
pub open spec fn digits_value(s: Seq<char>) -> nat
    decreases s.len(),
{
    if s.len() == 0 {
        0
    } else {
        digits_value(s.drop_last()) * 10 + (s.last() as int - 48) as nat
    }
}

/// The number that `s` writes, where `s` holds digits only and the number
/// is below 2^64.
pub open spec fn digits_read(s: Seq<char>) -> Option<nat> {
    if all_digits(s) && digits_value(s) <= u64::MAX {
        Some(digits_value(s))
    } else {
        None
    }
}

/// The place of the first point among `text[from..]`, or the length of
/// `text` where there is none.
pub open spec fn point_index(text: Seq<char>, from: int) -> int
    decreases text.len() - from,
{
    if from < 0 || from >= text.len() {
        text.len() as int
    } else if text[from] == '.' {
        from
    } else {
        point_index(text, from + 1)
    }
}

/// The whole part of the numeral `text`: `text` is one or more digits,
/// alone or followed by a point and one or more digits, and the whole part
/// is below 2^64. A numeral with a sign or an exponent has none.
pub open spec fn whole_part(text: Seq<char>) -> Option<nat> {
    let k = point_index(text, 0);
    if k == 0 {
        None
    } else if k == text.len() {
        digits_read(text)
    } else if k + 1 < text.len() && all_digits(text.subrange(k + 1, text.len() as int)) {
        digits_read(text.subrange(0, k))
    } else {
        None
    }
}

/// The view of an optional number.
pub open spec fn number_view(n: Option<u64>) -> Option<nat> {
    match n {
        Some(x) => Some(x as nat),
        None => None,
    }
}

/// The digits of a longer numeral write no smaller a number than those it
/// begins with.
pub proof fn lemma_digits_grow(s: Seq<char>, j: int)
    requires
        0 <= j <= s.len(),
    ensures
        digits_value(s.subrange(0, j)) <= digits_value(s),
    decreases s.len(),
{
    if j == s.len() {
        assert(s.subrange(0, j) =~= s);
    } else {
        lemma_digits_grow(s.drop_last(), j);
        assert(s.drop_last().subrange(0, j) =~= s.subrange(0, j));
    }
}

/// Whether `text[from..to]` holds digits only.
pub fn only_digits(text: &str, from: usize, to: usize) -> (r: bool)
    requires
        from <= to <= text@.len(),
    ensures
        r == all_digits(text@.subrange(from as int, to as int)),
{
    let ghost s = text@.subrange(from as int, to as int);
    let mut i: usize = from;
    while i < to
        invariant
            from <= i <= to,
            to <= text@.len(),
            s == text@.subrange(from as int, to as int),
            forall|j: int| 0 <= j < i - from ==> is_digit(#[trigger] s[j]),
        decreases to - i,
    {
        let c = text.get_char(i);
        assert(s[i - from] == c);
        if !('0' <= c && c <= '9') {
            return false;
        }
        i += 1;
    }
    true
}

/// Reads `text[from..to]` as a number written in digits.
pub fn read_digits(text: &str, from: usize, to: usize) -> (r: Option<u64>)
    requires
        from <= to <= text@.len(),
    ensures
        number_view(r) == digits_read(text@.subrange(from as int, to as int)),
{
    if !only_digits(text, from, to) {
        return None;
    }
    let ghost s = text@.subrange(from as int, to as int);
    let mut value: u64 = 0;
    let mut i: usize = from;
    assert(s.subrange(0, 0) =~= Seq::<char>::empty());
    while i < to
        invariant
            from <= i <= to,
            to <= text@.len(),
            s == text@.subrange(from as int, to as int),
            all_digits(s),
            value == digits_value(s.subrange(0, i - from)),
        decreases to - i,
    {
        let c = text.get_char(i);
        let ghost j = i - from;
        assert(s[j] == c);
        assert(is_digit(s[j]));
        assert(s.subrange(0, j + 1).drop_last() =~= s.subrange(0, j));
        assert(s.subrange(0, j + 1).last() == c);
        let digit: u64 = (c as u32 - 48) as u64;
        assert(digits_value(s.subrange(0, j + 1)) == value * 10 + digit);
        if value > (u64::MAX - digit) / 10 {
            proof {
                lemma_digits_grow(s, j + 1);
            }
            return None;
        }
        value = value * 10 + digit;
        i += 1;
    }
    assert(s.subrange(0, to - from) =~= s);
    Some(value)
}

/// The place of the first point in `text`, or its length.
pub fn find_point(text: &str) -> (k: usize)
    ensures
        k == point_index(text@, 0),
        k <= text@.len(),
{
    let n = text.unicode_len();
    let mut i: usize = 0;
    while i < n
        invariant
            i <= n,
            n == text@.len(),
            point_index(text@, 0) == point_index(text@, i as int),
        decreases n - i,
    {
        if text.get_char(i) == '.' {
            return i;
        }
        i += 1;
    }
    n
}

/// Reads the whole part of a decimal numeral.
pub fn whole_seconds(text: &str) -> (r: Option<u64>)
    ensures
        number_view(r) == whole_part(text@),
{
    let n = text.unicode_len();
    let k = find_point(text);
    if k == 0 {
        None
    } else if k == n {
        assert(text@.subrange(0, n as int) =~= text@);
        read_digits(text, 0, n)
    } else if k + 1 < n && only_digits(text, k + 1, n) {
        read_digits(text, 0, k)
    } else {
        None
    }
}

} // verus!
