//! The output modes that a caller can choose between.

use vstd::prelude::*;

verus! {

/// Logging format options. Only `Human` is rendered by this crate; the other
/// two name the renderings of the logging framework itself.
#[derive(Clone, Copy, Debug, PartialEq, Eq, Structural)]
pub enum LogFormat {
    /// One colourised line per event, `[SERVICE][FUNCTION][TIMESTAMP] message`:
    /// best for local development and easy to read for humans.
    Human,
    /// The framework's pretty format with full metadata, for debugging.
    Debug,
    /// JSON, best for production and easy to read for machines.
    Json,
}

} // verus!
