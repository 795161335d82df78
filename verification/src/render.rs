//! Composes the line `[SERVICE][FUNCTION][TIMESTAMP] message` for one event.
//!
//! The bracketed part is written in the metadata colour, the message in the
//! colour that its wording and severity give it; each part ends with a reset
//! code, and the line ends with a line feed.

use vstd::prelude::*;
use crate::casing::{to_uppercase, uppercase_of};
use crate::classify::{classify, message_color};
use crate::clock::{is_timestamp, local_time_text};
use crate::fields::{
    extract_fields, extracted, field_views, ExtractedFields, Field, FieldView,
};
use crate::palette::{Color, Severity};

verus! {

/// A structured log event: a severity and the named fields in the order in
/// which they were recorded.
#[derive(Debug)]
pub struct LogEvent {
    pub severity: Severity,
    pub fields: Vec<Field>,
}

/// An event as a severity and a sequence of pairs of texts.
pub struct LogEventView {
    pub severity: Severity,
    pub fields: Seq<FieldView>,
}

impl View for LogEvent {
    type V = LogEventView;

    open spec fn view(&self) -> LogEventView {
        LogEventView { severity: self.severity, fields: field_views(self.fields@) }
    }
}

/// How a service is shown: in upper case, and as `UNKNOWN`, the default name
/// in upper case, when none was given.
pub open spec fn service_label(service: Seq<char>) -> Seq<char> {
    if service.len() == 0 {
        "UNKNOWN"@
    } else {
        uppercase_of(service)
    }
}

/// How a function is shown: as it was given, and as `unknown` when none was given.
pub open spec fn function_label(function: Seq<char>) -> Seq<char> {
    if function.len() == 0 {
        "unknown"@
    } else {
        function
    }
}

/// How a message is shown: as it was given, and as `<no message>` when none was given.
pub open spec fn message_text(message: Seq<char>) -> Seq<char> {
    if message.len() == 0 {
        "<no message>"@
    } else {
        message
    }
}

/// `label` between square brackets.
pub open spec fn bracketed(label: Seq<char>) -> Seq<char> {
    "["@ + label + "]"@
}

/// The three bracketed labels of a line, without colour codes.
pub open spec fn line_prefix(
    service_label: Seq<char>,
    function_label: Seq<char>,
    timestamp: Seq<char>,
) -> Seq<char> {
    bracketed(service_label) + bracketed(function_label) + bracketed(timestamp)
}

/// The line made of labels, a timestamp, a colour and a message that are
/// all final.
pub open spec fn composed_line(
    service_label: Seq<char>,
    function_label: Seq<char>,
    timestamp: Seq<char>,
    color: Color,
    message: Seq<char>,
) -> Seq<char> {
    Color::Metadata.code_spec() + line_prefix(service_label, function_label, timestamp)
        + Color::Reset.code_spec() + color.code_spec() + " "@ + message + Color::Reset.code_spec()
        + "\n"@
}

/// The line for the extracted values of an event at `severity`, stamped `timestamp`.
pub open spec fn rendered_line(
    fields: ExtractedFields,
    severity: Severity,
    timestamp: Seq<char>,
) -> Seq<char> {
    let message = message_text(fields.message);
    composed_line(
        service_label(fields.service),
        function_label(fields.function),
        timestamp,
        message_color(severity, message),
        message,
    )
}

/// The line for `event`, stamped `timestamp`.
pub open spec fn rendered_event(event: LogEventView, timestamp: Seq<char>) -> Seq<char> {
    rendered_line(extracted(event.fields), event.severity, timestamp)
}

/// The service of `event` as its line shows it.
pub open spec fn shown_service(event: LogEventView) -> Seq<char> {
    service_label(extracted(event.fields).service)
}

/// The function of `event` as its line shows it.
pub open spec fn shown_function(event: LogEventView) -> Seq<char> {
    function_label(extracted(event.fields).function)
}

/// The message of `event` as its line shows it.
pub open spec fn shown_message(event: LogEventView) -> Seq<char> {
    message_text(extracted(event.fields).message)
}

/// The colour in which the line of `event` shows its message.
pub open spec fn shown_color(event: LogEventView) -> Color {
    message_color(event.severity, shown_message(event))
}

/// The part of the line of `event` that stands before the timestamp.
pub open spec fn line_head(event: LogEventView) -> Seq<char> {
    Color::Metadata.code_spec() + bracketed(shown_service(event)) + bracketed(
        shown_function(event),
    ) + "["@
}

/// The part of the line of `event` that stands after the timestamp.
pub open spec fn line_tail(event: LogEventView) -> Seq<char> {
    "]"@ + Color::Reset.code_spec() + shown_color(event).code_spec() + " "@ + shown_message(event)
        + Color::Reset.code_spec() + "\n"@
}

/// `line` is the line for `event` with some well-formed timestamp.
pub open spec fn is_rendering_of(line: Seq<char>, event: LogEventView) -> bool {
    exists|timestamp: Seq<char>| #[trigger]
        is_timestamp(timestamp) && line == rendered_event(event, timestamp)
}

/// Writes the line from parts that are all final.
pub fn compose_line(
    service_label: &str,
    function_label: &str,
    timestamp: &str,
    color: Color,
    message: &str,
) -> (line: String)
    ensures
        line@ == composed_line(service_label@, function_label@, timestamp@, color, message@),
{
    let mut line = String::new();
    line.append(Color::Metadata.code());
    line.append("[");
    line.append(service_label);
    line.append("]");
    line.append("[");
    line.append(function_label);
    line.append("]");
    line.append("[");
    line.append(timestamp);
    line.append("]");
    line.append(Color::Reset.code());
    line.append(color.code());
    line.append(" ");
    line.append(message);
    line.append(Color::Reset.code());
    line.append("\n");
    assert(line@ =~= composed_line(
        service_label@,
        function_label@,
        timestamp@,
        color,
        message@,
    ));
    line
}

/// The service as it is shown.
pub fn display_service(service: &str) -> (label: String)
    ensures
        label@ == service_label(service@),
{
    if service.is_empty() {
        "UNKNOWN".to_owned()
    } else {
        to_uppercase(service)
    }
}

/// Renders the line for the three extracted values; an empty value stands
/// for one that the event did not give.
pub fn render_line(
    service: &str,
    function: &str,
    message: &str,
    severity: Severity,
    timestamp: &str,
) -> (line: String)
    ensures
        line@ == rendered_line(
            (ExtractedFields { service: service@, function: function@, message: message@ }),
            severity,
            timestamp@,
        ),
{
    let service_label = display_service(service);
    let function_label = if function.is_empty() {
        "unknown"
    } else {
        function
    };
    let message = if message.is_empty() {
        "<no message>"
    } else {
        message
    };
    let color = classify(severity, message);
    compose_line(service_label.as_str(), function_label, timestamp, color, message)
}

/// Renders the line for `event`, stamped `timestamp`.
pub fn render_event(event: &LogEvent, timestamp: &str) -> (line: String)
    ensures
        line@ == rendered_event(event@, timestamp@),
{
    let visitor = extract_fields(&event.fields);
    render_line(
        visitor.service.as_str(),
        visitor.function.as_str(),
        visitor.message.as_str(),
        event.severity,
        timestamp,
    )
}

/// Formats events as `[SERVICE][FUNCTION][TIMESTAMP] message`.
#[derive(Clone, Copy, Debug)]
pub struct HumanStyleFormatter;

impl HumanStyleFormatter {
    /// Renders the line for `event`, stamped with the local time of the call
    /// as month name, day of the month and time of day.
    pub fn format_event(&self, event: &LogEvent) -> (line: String)
        ensures
            is_rendering_of(line@, event@),
    {
        let stamp = local_time_text("%b %d %H:%M:%S");
        render_event(event, stamp.as_str())
    }
}

} // verus!
