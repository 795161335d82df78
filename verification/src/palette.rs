//! Severities and the fixed colour palette.

use vstd::prelude::*;

verus! {

/// Urgency of an event.
#[derive(Clone, Copy, Debug, PartialEq, Eq, Structural)]
pub enum Severity {
    Error,
    Warn,
    Info,
    Debug,
    Trace,
}

/// The closed set of display colours, with the reset code among them.
#[derive(Clone, Copy, Debug, PartialEq, Eq, Structural)]
pub enum Color {
    Error,
    Warning,
    Info,
    Success,
    Metadata,
    Reset,
}

impl Color {
    /// The escape sequence that switches a terminal to this colour.
    pub open spec fn code_spec(self) -> Seq<char> {
        match self {
            Color::Error => "\x1b[31m"@,
            Color::Warning => "\x1b[33m"@,
            Color::Info => "\x1b[34m"@,
            Color::Success => "\x1b[32m"@,
            Color::Metadata => "\x1b[37m"@,
            Color::Reset => "\x1b[0m"@,
        }
    }

    /// The escape sequence that switches a terminal to this colour.
    pub fn code(self) -> (text: &'static str)
        ensures
            text@ == self.code_spec(),
    {
        match self {
            Color::Error => "\x1b[31m",
            Color::Warning => "\x1b[33m",
            Color::Info => "\x1b[34m",
            Color::Success => "\x1b[32m",
            Color::Metadata => "\x1b[37m",
            Color::Reset => "\x1b[0m",
        }
    }
}

} // verus!
