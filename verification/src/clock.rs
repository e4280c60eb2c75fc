//! The time of day as the label that a message is stamped with. Reading the
//! clock is the caller's; what a label looks like is settled here.

use vstd::prelude::*;
use vstd::string::StrSliceExecFns;

verus! {

/// Whether `c` is a decimal digit.
pub open spec fn is_digit(c: char) -> bool {
    '0' <= c <= '9'
}

/// The number that the two digits `tens` and `ones` write.
pub open spec fn two_digits(tens: char, ones: char) -> int {
    10 * (tens as u32 - '0' as u32) + (ones as u32 - '0' as u32)
}

/// Whether `s` is a time of day written as hour and minute, `HH:MM`, on the
/// 24-hour clock.
pub open spec fn is_clock_label(s: Seq<char>) -> bool {
    &&& s.len() == 5
    &&& is_digit(s[0])
    &&& is_digit(s[1])
    &&& s[2] == ':'
    &&& is_digit(s[3])
    &&& is_digit(s[4])
    &&& two_digits(s[0], s[1]) <= 23
    &&& two_digits(s[3], s[4]) <= 59
}

/// Decides whether `c` is a decimal digit.
pub fn char_is_digit(c: char) -> (b: bool)
    ensures
        b == is_digit(c),
{
    let n: u32 = c as u32;
    48 <= n && n <= 57
}

/// Decides whether `s` is a clock label.
pub fn clock_label_ok(s: &str) -> (ok: bool)
    ensures
        ok == is_clock_label(s@),
{
    if s.unicode_len() != 5 {
        return false;
    }
    let h1 = s.get_char(0);
    let h2 = s.get_char(1);
    let colon = s.get_char(2);
    let m1 = s.get_char(3);
    let m2 = s.get_char(4);
    if !(char_is_digit(h1) && char_is_digit(h2) && colon == ':' && char_is_digit(m1)
        && char_is_digit(m2)) {
        return false;
    }
    let hour: u32 = 10 * (h1 as u32 - 48) + (h2 as u32 - 48);
    let minute: u32 = 10 * (m1 as u32 - 48) + (m2 as u32 - 48);
    hour <= 23 && minute <= 59
}

} // verus!
