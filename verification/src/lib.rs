//! Renders one structured log event as one colourised line of text,
//! `[SERVICE][FUNCTION][TIMESTAMP] message`.
//!
//! Three steps make the line. The fields of the event are read for a
//! service, a function and a message ([`fields`]). The message gets a colour
//! from its wording and the severity of the event ([`classify`]). The line is
//! composed with the local time of the moment ([`render`]). What holds of
//! every line is stated and proved in [`laws`].

pub mod casing;
pub mod classify;
pub mod clock;
pub mod fields;
pub mod laws;
pub mod output;
pub mod palette;
pub mod render;
pub mod text;

pub use crate::fields::{Field, FieldValue, HumanStyleVisitor};
pub use crate::output::LogFormat;
pub use crate::palette::{Color, Severity};
pub use crate::render::{HumanStyleFormatter, LogEvent};
