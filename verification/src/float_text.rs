//! Which texts write a floating-point number.
//!
//! The grammar is that of Rust's own float literals read from a string: an
//! optional sign, then `inf`, `infinity` or `nan` in any case, or digits with
//! an optional point and an optional exponent. At least one digit stands
//! before the exponent, and nothing may stand around the number.

use vstd::prelude::*;
use crate::text::is_digit;

verus! {

/// How many decimal digits stand in `s` from position `from` on, up to the
/// first character that is no digit.
pub open spec fn digit_run(s: Seq<char>, from: int) -> int
    decreases s.len() - from,
{
    if 0 <= from < s.len() && is_digit(s[from]) {
        1 + digit_run(s, from + 1)
    } else {
        0
    }
}

/// The character at position `at` of `s` is the letter given in its two cases.
pub open spec fn letter_at(s: Seq<char>, at: int, lower: char, upper: char) -> bool {
    0 <= at < s.len() && (s[at] == lower || s[at] == upper)
}

/// From `start` to its end, `s` reads `inf`, `nan` or `infinity`, in any case.
pub open spec fn is_special_from(s: Seq<char>, start: int) -> bool {
    ||| {
        &&& s.len() - start == 3
        &&& letter_at(s, start, 'i', 'I')
        &&& letter_at(s, start + 1, 'n', 'N')
        &&& letter_at(s, start + 2, 'f', 'F')
    }
    ||| {
        &&& s.len() - start == 3
        &&& letter_at(s, start, 'n', 'N')
        &&& letter_at(s, start + 1, 'a', 'A')
        &&& letter_at(s, start + 2, 'n', 'N')
    }
    ||| {
        &&& s.len() - start == 8
        &&& letter_at(s, start, 'i', 'I')
        &&& letter_at(s, start + 1, 'n', 'N')
        &&& letter_at(s, start + 2, 'f', 'F')
        &&& letter_at(s, start + 3, 'i', 'I')
        &&& letter_at(s, start + 4, 'n', 'N')
        &&& letter_at(s, start + 5, 'i', 'I')
        &&& letter_at(s, start + 6, 't', 'T')
        &&& letter_at(s, start + 7, 'y', 'Y')
    }
}

/// From `at` to its end, `s` is an exponent: `e` or `E`, an optional sign,
/// and one or more digits.
pub open spec fn is_exponent_from(s: Seq<char>, at: int) -> bool {
    let digits = if at + 1 < s.len() && (s[at + 1] == '+' || s[at + 1] == '-') {
        at + 2
    } else {
        at + 1
    };
    &&& 0 <= at < s.len()
    &&& (s[at] == 'e' || s[at] == 'E')
    &&& digit_run(s, digits) > 0
    &&& digits + digit_run(s, digits) == s.len()
}

/// From `start` to its end, `s` is a decimal number: digits, an optional
/// point with digits after it, at least one digit in all, and an optional
/// exponent.
pub open spec fn is_number_from(s: Seq<char>, start: int) -> bool {
    let whole = digit_run(s, start);
    let point = start + whole < s.len() && s[start + whole] == '.';
    let fraction = if point {
        digit_run(s, start + whole + 1)
    } else {
        0
    };
    let end = if point {
        start + whole + 1 + fraction
    } else {
        start + whole
    };
    whole + fraction > 0 && (end == s.len() || is_exponent_from(s, end))
}

/// The text `s` writes a floating-point number.
pub open spec fn is_float_text(s: Seq<char>) -> bool {
    let start = if s.len() > 0 && (s[0] == '+' || s[0] == '-') {
        1int
    } else {
        0int
    };
    is_special_from(s, start) || is_number_from(s, start)
}

/// The position after the digits that stand in `s` from `from` on.
fn skip_digits(s: &str, from: usize, len: usize) -> (end: usize)
    requires
        len == s@.len(),
        from <= len,
    ensures
        end == from + digit_run(s@, from as int),
        from <= end <= len,
{
    let mut i: usize = from;
    while i < len
        invariant
            from <= i <= len,
            len == s@.len(),
            from + digit_run(s@, from as int) == i + digit_run(s@, i as int),
        decreases len - i,
    {
        let c = s.get_char(i);
        if !('0' <= c && c <= '9') {
            return i;
        }
        i += 1;
    }
    i
}

/// Whether the character at `at` is the letter given in its two cases.
fn has_letter(s: &str, len: usize, at: usize, lower: char, upper: char) -> (r: bool)
    requires
        len == s@.len(),
    ensures
        r == letter_at(s@, at as int, lower, upper),
{
    if at < len {
        let c = s.get_char(at);
        c == lower || c == upper
    } else {
        false
    }
}

/// Whether `s` reads `inf`, `nan` or `infinity` from `start` on.
fn reads_special(s: &str, len: usize, start: usize) -> (r: bool)
    requires
        len == s@.len(),
        start <= 1,
        start <= len,
    ensures
        r == is_special_from(s@, start as int),
{
    let rest: usize = len - start;
    if rest == 3 {
        (has_letter(s, len, start, 'i', 'I') && has_letter(s, len, start + 1, 'n', 'N')
            && has_letter(s, len, start + 2, 'f', 'F')) || (has_letter(s, len, start, 'n', 'N')
            && has_letter(s, len, start + 1, 'a', 'A') && has_letter(s, len, start + 2, 'n', 'N'))
    } else if rest == 8 {
        has_letter(s, len, start, 'i', 'I') && has_letter(s, len, start + 1, 'n', 'N')
            && has_letter(s, len, start + 2, 'f', 'F') && has_letter(s, len, start + 3, 'i', 'I')
            && has_letter(s, len, start + 4, 'n', 'N') && has_letter(s, len, start + 5, 'i', 'I')
            && has_letter(s, len, start + 6, 't', 'T') && has_letter(s, len, start + 7, 'y', 'Y')
    } else {
        false
    }
}

/// Whether `s` is an exponent from `at` on.
fn reads_exponent(s: &str, len: usize, at: usize) -> (r: bool)
    requires
        len == s@.len(),
        at < len,
    ensures
        r == is_exponent_from(s@, at as int),
{
    let c = s.get_char(at);
    if !(c == 'e' || c == 'E') {
        return false;
    }
    let mut digits: usize = at + 1;
    if digits < len {
        let sign = s.get_char(digits);
        if sign == '+' || sign == '-' {
            digits = digits + 1;
        }
    }
    let end = skip_digits(s, digits, len);
    end > digits && end == len
}

/// Whether `s` is a decimal number from `start` on.
fn reads_number(s: &str, len: usize, start: usize) -> (r: bool)
    requires
        len == s@.len(),
        start <= len,
    ensures
        r == is_number_from(s@, start as int),
{
    let whole_end = skip_digits(s, start, len);
    let mut end: usize = whole_end;
    let mut count: usize = whole_end - start;
    if whole_end < len && s.get_char(whole_end) == '.' {
        end = skip_digits(s, whole_end + 1, len);
        count = count + (end - (whole_end + 1));
    }
    if count == 0 {
        return false;
    }
    if end == len {
        return true;
    }
    reads_exponent(s, len, end)
}

/// Decides whether `s` writes a floating-point number.
pub fn writes_float(s: &str) -> (r: bool)
    ensures
        r == is_float_text(s@),
{
    let len = s.unicode_len();
    let mut start: usize = 0;
    if len > 0 {
        let c = s.get_char(0);
        if c == '+' || c == '-' {
            start = 1;
        }
    }
    reads_special(s, len, start) || reads_number(s, len, start)
}

} // verus!
