//! The one textual form in which the model carries points in time.

use vstd::prelude::*;
use vstd::string::StrSliceExecFns;
use crate::http::is_digit;

verus! {

/// The number that the two digits at `at` and `at + 1` write.
pub open spec fn two_digits(s: Seq<char>, at: int) -> int {
    (s[at] as int - '0' as int) * 10 + (s[at + 1] as int - '0' as int)
}

/// Whether the characters from `from` up to `to` are all digits.
pub open spec fn digits_between(s: Seq<char>, from: int, to: int) -> bool {
    forall|i: int| from <= i < to ==> is_digit(#[trigger] s[i])
}

/// How many digits stand in `s` from `from` on, before the first other character.
pub open spec fn digit_run(s: Seq<char>, from: int) -> nat
    decreases s.len() - from,
{
    if 0 <= from < s.len() && is_digit(s[from]) {
        1 + digit_run(s, from + 1)
    } else {
        0
    }
}

/// `YYYY-MM-DDThh:mm:ss` at the start of `s`, with the month in 1 to 12, the
/// day in 1 to 31, the hour up to 23, the minute up to 59 and the second up
/// to 60.
pub open spec fn starts_with_date_time(s: Seq<char>) -> bool {
    &&& s.len() >= 19
    &&& digits_between(s, 0, 4)
    &&& s[4] == '-'
    &&& digits_between(s, 5, 7)
    &&& s[7] == '-'
    &&& digits_between(s, 8, 10)
    &&& (s[10] == 'T' || s[10] == 't')
    &&& digits_between(s, 11, 13)
    &&& s[13] == ':'
    &&& digits_between(s, 14, 16)
    &&& s[16] == ':'
    &&& digits_between(s, 17, 19)
    &&& 1 <= two_digits(s, 5) <= 12
    &&& 1 <= two_digits(s, 8) <= 31
    &&& two_digits(s, 11) <= 23
    &&& two_digits(s, 14) <= 59
    &&& two_digits(s, 17) <= 60
}

/// Whether the characters of `s` from `from` on are exactly a time zone: `Z`,
/// or a sign with hours up to 23, `:`, and minutes up to 59.
pub open spec fn zone_at(s: Seq<char>, from: int) -> bool {
    ||| s.len() == from + 1 && (s[from] == 'Z' || s[from] == 'z')
    ||| {
        &&& s.len() == from + 6
        &&& (s[from] == '+' || s[from] == '-')
        &&& digits_between(s, from + 1, from + 3)
        &&& s[from + 3] == ':'
        &&& digits_between(s, from + 4, from + 6)
        &&& two_digits(s, from + 1) <= 23
        &&& two_digits(s, from + 4) <= 59
    }
}

/// Whether `s` writes a point in time the way RFC 3339 does: date and time,
/// then optionally `.` and at least one digit, then the time zone.
pub open spec fn spec_is_rfc3339(s: Seq<char>) -> bool {
    &&& starts_with_date_time(s)
    &&& s.len() > 19
    &&& if s[19] == '.' {
        digit_run(s, 20) >= 1 && zone_at(s, 20 + digit_run(s, 20) as int)
    } else {
        zone_at(s, 19)
    }
}

/// Whether the character at `at` is a digit.
fn digit_at(s: &str, at: usize) -> (is: bool)
    requires
        at < s@.len(),
    ensures
        is == is_digit(s@[at as int]),
{
    let c = s.get_char(at);
    '0' <= c && c <= '9'
}

/// Reads the two digits at `at`, where there are two.
fn read_two_digits(s: &str, at: usize) -> (value: Option<u32>)
    requires
        at + 1 < s@.len(),
        at < usize::MAX,
    ensures
        value is Some == digits_between(s@, at as int, at as int + 2),
        value matches Some(v) ==> v == two_digits(s@, at as int),
{
    if digit_at(s, at) && digit_at(s, at + 1) {
        let high = s.get_char(at) as u32 - '0' as u32;
        let low = s.get_char(at + 1) as u32 - '0' as u32;
        Some(high * 10 + low)
    } else {
        assert(!is_digit(s@[at as int]) || !is_digit(s@[at as int + 1]));
        None
    }
}

/// Whether the two digits at `at` write a number from `low` to `high`.
fn two_digits_within(s: &str, at: usize, low: u32, high: u32) -> (within: bool)
    requires
        at + 1 < s@.len(),
        at < usize::MAX,
    ensures
        within == (digits_between(s@, at as int, at as int + 2) && low <= two_digits(s@, at as int) <= high),
{
    match read_two_digits(s, at) {
        Some(v) => low <= v && v <= high,
        None => false,
    }
}

/// Whether the character at `at` is `c`.
fn char_at_is(s: &str, at: usize, c: char) -> (is: bool)
    requires
        at < s@.len(),
    ensures
        is == (s@[at as int] == c),
{
    s.get_char(at) == c
}

/// Whether `s` begins with a date and a time.
fn has_date_time(s: &str) -> (has: bool)
    ensures
        has == starts_with_date_time(s@),
{
    if s.unicode_len() < 19 {
        return false;
    }
    let year = digit_at(s, 0) && digit_at(s, 1) && digit_at(s, 2) && digit_at(s, 3);
    if !year {
        assert(!digits_between(s@, 0, 4));
        return false;
    }
    assert(digits_between(s@, 0, 4));
    char_at_is(s, 4, '-') && two_digits_within(s, 5, 1, 12) && char_at_is(s, 7, '-') && two_digits_within(
        s,
        8,
        1,
        31,
    ) && (char_at_is(s, 10, 'T') || char_at_is(s, 10, 't')) && two_digits_within(s, 11, 0, 23) && char_at_is(
        s,
        13,
        ':',
    ) && two_digits_within(s, 14, 0, 59) && char_at_is(s, 16, ':') && two_digits_within(s, 17, 0, 60)
}

/// Whether `s` from `from` on is exactly a time zone.
fn has_zone_at(s: &str, from: usize) -> (has: bool)
    requires
        from <= s@.len(),
    ensures
        has == zone_at(s@, from as int),
{
    let n = s.unicode_len();
    if n - from == 1 {
        char_at_is(s, from, 'Z') || char_at_is(s, from, 'z')
    } else if n - from == 6 {
        (char_at_is(s, from, '+') || char_at_is(s, from, '-')) && two_digits_within(s, from + 1, 0, 23)
            && char_at_is(s, from + 3, ':') && two_digits_within(s, from + 4, 0, 59)
    } else {
        false
    }
}

/// Whether `text` writes a point in time the way RFC 3339 does.
pub fn is_rfc3339(text: &str) -> (is: bool)
    ensures
        is == spec_is_rfc3339(text@),
{
    if !has_date_time(text) {
        return false;
    }
    let n = text.unicode_len();
    if n <= 19 {
        return false;
    }
    if !char_at_is(text, 19, '.') {
        return has_zone_at(text, 19);
    }
    let mut at: usize = 20;
    while at < n && digit_at(text, at)
        invariant
            20 <= at <= n,
            n == text@.len(),
            digit_run(text@, 20) == (at - 20) + digit_run(text@, at as int),
        decreases n - at,
    {
        at = at + 1;
    }
    at > 20 && has_zone_at(text, at)
}

} // verus!
