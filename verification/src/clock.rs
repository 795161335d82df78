//! The wall clock, read through `chrono` on trust.

use vstd::prelude::*;

verus! {

/// A decimal digit.
pub open spec fn is_digit(c: char) -> bool {
    '0' <= c && c <= '9'
}

/// One of the twelve English three-letter month names.
pub open spec fn is_month_abbreviation(text: Seq<char>) -> bool {
    ||| text == "Jan"@
    ||| text == "Feb"@
    ||| text == "Mar"@
    ||| text == "Apr"@
    ||| text == "May"@
    ||| text == "Jun"@
    ||| text == "Jul"@
    ||| text == "Aug"@
    ||| text == "Sep"@
    ||| text == "Oct"@
    ||| text == "Nov"@
    ||| text == "Dec"@
}

/// The shape `Mon DD HH:MM:SS`: a month name, a two-digit day and a
/// two-digit hour, minute and second.
pub open spec fn is_timestamp(text: Seq<char>) -> bool {
    &&& text.len() == 15
    &&& is_month_abbreviation(text.subrange(0, 3))
    &&& text[3] == ' '
    &&& is_digit(text[4])
    &&& is_digit(text[5])
    &&& text[6] == ' '
    &&& is_digit(text[7])
    &&& is_digit(text[8])
    &&& text[9] == ':'
    &&& is_digit(text[10])
    &&& is_digit(text[11])
    &&& text[12] == ':'
    &&& is_digit(text[13])
    &&& is_digit(text[14])
}

/// The local time of the moment of the call, as `chrono::Local::now()` gives
/// it, written by `DateTime::format` with `pattern`.
///
/// Trusted. Two calls may differ, so the result has no name. What is claimed
/// is the shape that chrono documents for the one pattern that is let in,
/// whatever the time: `%b` is the abbreviated month name, always three
/// letters, from chrono's English table; `%d`, `%H`, `%M` and `%S` are each
/// padded with a zero to two digits; the spaces and colons of the pattern
/// are copied. Reading the clock and the local time zone is chrono's
/// business and can fail as it fails there.
#[verifier::external_body]
pub(crate) fn local_time_text(pattern: &str) -> (stamp: String)
    requires
        pattern@ == "%b %d %H:%M:%S"@,
    ensures
        is_timestamp(stamp@),
{
    chrono::Local::now().format(pattern).to_string()
}

} // verus!
