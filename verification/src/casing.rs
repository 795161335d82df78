//! Unicode case mapping, taken from the standard library on trust.
//!
//! The mapping tables are long and are not restated here: each result gets a
//! name, and the contracts of this crate speak of that name.

use vstd::prelude::*;

verus! {

/// What `str::to_lowercase` returns for the characters `text`.
pub uninterp spec fn lowercase_of(text: Seq<char>) -> Seq<char>;

/// What `str::to_uppercase` returns for the characters `text`.
pub uninterp spec fn uppercase_of(text: Seq<char>) -> Seq<char>;

/// Calls `str::to_lowercase`. Trusted: the result is a function of the
/// characters of `text` alone, and nothing more is claimed of it.
#[verifier::external_body]
pub(crate) fn to_lowercase(text: &str) -> (lowered: String)
    ensures
        lowered@ == lowercase_of(text@),
{
    text.to_lowercase()
}

/// Calls `str::to_uppercase`. Trusted: the result is a function of the
/// characters of `text` alone, and nothing more is claimed of it.
#[verifier::external_body]
pub(crate) fn to_uppercase(text: &str) -> (raised: String)
    ensures
        raised@ == uppercase_of(text@),
{
    text.to_uppercase()
}

} // verus!
