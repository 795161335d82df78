//! Chooses the colour of a message from its wording and its severity.
//!
//! A message that mentions success is shown in the success colour whatever
//! its severity; every other message takes the colour of its severity. The
//! wording is matched without regard to case, on the lower-cased message.

use vstd::prelude::*;
use crate::casing::{lowercase_of, to_lowercase};
use crate::palette::{Color, Severity};
use crate::text::{chars_of, contains_chars, is_substring};

verus! {

/// One of the fixed success keywords stands in the lower-cased text.
pub open spec fn has_success_keyword(lowered: Seq<char>) -> bool {
    ||| is_substring(lowered, "succe"@)
    ||| is_substring(lowered, "created"@)
    ||| is_substring(lowered, "complete"@)
    ||| is_substring(lowered, "finished"@)
    ||| is_substring(lowered, "done"@)
    ||| is_substring(lowered, "ready"@)
    ||| is_substring(lowered, "initialized"@)
    ||| is_substring(lowered, "connected"@)
    ||| is_substring(lowered, "deployed"@)
    ||| is_substring(lowered, "started"@)
}

/// The colour that a severity gives to a message without a success keyword.
pub open spec fn severity_color(severity: Severity) -> Color {
    match severity {
        Severity::Error => Color::Error,
        Severity::Warn => Color::Warning,
        _ => Color::Info,
    }
}

/// The colour of a message whose lower-cased text is `lowered`.
pub open spec fn color_of_lowered(severity: Severity, lowered: Seq<char>) -> Color {
    if has_success_keyword(lowered) {
        Color::Success
    } else {
        severity_color(severity)
    }
}

/// The colour of `message` at `severity`.
pub open spec fn message_color(severity: Severity, message: Seq<char>) -> Color {
    color_of_lowered(severity, lowercase_of(message))
}

/// Whether `keyword` stands in `hay`.
fn mentions(hay: &Vec<char>, keyword: &str) -> (found: bool)
    ensures
        found == is_substring(hay@, keyword@),
{
    let needle = chars_of(keyword);
    contains_chars(hay, &needle)
}

/// Whether one of the success keywords stands in `lowered`.
pub fn mentions_success(lowered: &str) -> (found: bool)
    ensures
        found == has_success_keyword(lowered@),
{
    let hay = chars_of(lowered);
    mentions(&hay, "succe") || mentions(&hay, "created") || mentions(&hay, "complete")
        || mentions(&hay, "finished") || mentions(&hay, "done") || mentions(&hay, "ready")
        || mentions(&hay, "initialized") || mentions(&hay, "connected")
        || mentions(&hay, "deployed") || mentions(&hay, "started")
}

/// The colour of a message, given its text already in lower case.
pub fn classify_lowered(severity: Severity, lowered: &str) -> (color: Color)
    ensures
        color == color_of_lowered(severity, lowered@),
{
    if mentions_success(lowered) {
        Color::Success
    } else {
        match severity {
            Severity::Error => Color::Error,
            Severity::Warn => Color::Warning,
            _ => Color::Info,
        }
    }
}

/// The colour of `message` at `severity`.
pub fn classify(severity: Severity, message: &str) -> (color: Color)
    ensures
        color == message_color(severity, message@),
{
    let lowered = to_lowercase(message);
    classify_lowered(severity, lowered.as_str())
}

/// A message that mentions success, in any mix of upper and lower case, is
/// shown in the success colour at every severity.
pub proof fn law_success_overrides_severity(severity: Severity, message: Seq<char>)
    requires
        has_success_keyword(lowercase_of(message)),
    ensures
        message_color(severity, message) == Color::Success,
{
}

/// A message that mentions no success takes the colour of its severity:
/// the error colour for an error, the warning colour for a warning, the
/// info colour for everything else.
pub proof fn law_severity_decides_otherwise(severity: Severity, message: Seq<char>)
    requires
        !has_success_keyword(lowercase_of(message)),
    ensures
        severity == Severity::Error ==> message_color(severity, message) == Color::Error,
        severity == Severity::Warn ==> message_color(severity, message) == Color::Warning,
        severity == Severity::Info || severity == Severity::Debug || severity == Severity::Trace
            ==> message_color(severity, message) == Color::Info,
{
}

} // verus!
