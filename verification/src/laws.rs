//! What holds of the line of every event.

use vstd::prelude::*;
use crate::casing::uppercase_of;
use crate::classify::message_color;
use crate::clock::is_timestamp;
use crate::fields::{
    extracted, is_absent, law_absent_value_is_empty, law_first_nonempty_value_wins,
    law_last_value_wins,
};
use crate::palette::Color;
use crate::render::{
    bracketed, composed_line, is_rendering_of, line_head, line_tail, line_prefix, rendered_event,
    shown_color, shown_function, shown_message, shown_service, LogEventView,
};
use crate::text::{is_substring, occurs_at};

verus! {

/// The line of an event is made of the four things that it shows: service,
/// function, message and colour. Around the timestamp it falls into a head
/// and a tail that the event alone decides.
pub proof fn law_line_layout(event: LogEventView, timestamp: Seq<char>)
    ensures
        rendered_event(event, timestamp) == composed_line(
            shown_service(event),
            shown_function(event),
            timestamp,
            shown_color(event),
            shown_message(event),
        ),
        rendered_event(event, timestamp) == line_head(event) + timestamp + line_tail(event),
{
    assert(rendered_event(event, timestamp) =~= line_head(event) + timestamp + line_tail(event));
}

/// An event without a service field shows `[UNKNOWN]` for it: the bracketed
/// part of its line begins with these characters.
pub proof fn law_absent_service_shows_unknown(event: LogEventView, timestamp: Seq<char>)
    requires
        is_absent(event.fields, "service"@),
    ensures
        shown_service(event) == "UNKNOWN"@,
        occurs_at(
            line_prefix(shown_service(event), shown_function(event), timestamp),
            "[UNKNOWN]"@,
            0,
        ),
        is_substring(rendered_event(event, timestamp), "[UNKNOWN]"@),
{
    law_absent_value_is_empty(event.fields, "service"@);
    reveal_strlit("[");
    reveal_strlit("]");
    reveal_strlit("UNKNOWN");
    reveal_strlit("[UNKNOWN]");
    let prefix = line_prefix(shown_service(event), shown_function(event), timestamp);
    assert(bracketed("UNKNOWN"@) =~= "[UNKNOWN]"@);
    assert(prefix.subrange(0, 9) =~= "[UNKNOWN]"@);
    let line = rendered_event(event, timestamp);
    let start = Color::Metadata.code_spec().len() as int;
    assert(line.subrange(start, start + 9) =~= "[UNKNOWN]"@);
    assert(occurs_at(line, "[UNKNOWN]"@, start));
}

/// An event without a function field shows `[unknown]` for it, in lower
/// case: these characters follow the bracketed service.
pub proof fn law_absent_function_shows_unknown(event: LogEventView, timestamp: Seq<char>)
    requires
        is_absent(event.fields, "function"@),
    ensures
        shown_function(event) == "unknown"@,
        occurs_at(
            line_prefix(shown_service(event), shown_function(event), timestamp),
            "[unknown]"@,
            bracketed(shown_service(event)).len() as int,
        ),
        is_substring(rendered_event(event, timestamp), "[unknown]"@),
{
    law_absent_value_is_empty(event.fields, "function"@);
    reveal_strlit("[");
    reveal_strlit("]");
    reveal_strlit("unknown");
    reveal_strlit("[unknown]");
    let prefix = line_prefix(shown_service(event), shown_function(event), timestamp);
    let skip = bracketed(shown_service(event)).len() as int;
    assert(bracketed("unknown"@) =~= "[unknown]"@);
    assert(prefix.subrange(skip, skip + 9) =~= "[unknown]"@);
    let line = rendered_event(event, timestamp);
    let start = Color::Metadata.code_spec().len() + skip;
    assert(line.subrange(start, start + 9) =~= "[unknown]"@);
    assert(occurs_at(line, "[unknown]"@, start));
}

/// An event without a message field shows exactly `<no message>` as its
/// message, in the colour that this text has at the severity of the event.
pub proof fn law_absent_message_shows_placeholder(event: LogEventView, timestamp: Seq<char>)
    requires
        is_absent(event.fields, "message"@),
    ensures
        shown_message(event) == "<no message>"@,
        rendered_event(event, timestamp) == composed_line(
            shown_service(event),
            shown_function(event),
            timestamp,
            message_color(event.severity, "<no message>"@),
            "<no message>"@,
        ),
{
    law_absent_value_is_empty(event.fields, "message"@);
}

/// Of several message fields the first one is shown: where the field at `at`
/// is the first one called `message` and its text is not empty, the line
/// shows that text, whatever message fields follow.
pub proof fn law_first_message_is_shown(event: LogEventView, timestamp: Seq<char>, at: int)
    requires
        0 <= at < event.fields.len(),
        event.fields[at].name == "message"@,
        event.fields[at].text.len() > 0,
        forall|j: int| 0 <= j < at ==> (#[trigger] event.fields[j]).name != "message"@,
    ensures
        shown_message(event) == event.fields[at].text,
        rendered_event(event, timestamp) == composed_line(
            shown_service(event),
            shown_function(event),
            timestamp,
            message_color(event.severity, event.fields[at].text),
            event.fields[at].text,
        ),
{
    law_first_nonempty_value_wins(event.fields, "message"@, at);
}

/// Of several service fields the last one is shown: where the field at `at`
/// is the last one called `service` and its text is not empty, the line shows
/// that text in upper case, whatever service fields came before.
pub proof fn law_last_service_is_shown(event: LogEventView, at: int)
    requires
        0 <= at < event.fields.len(),
        event.fields[at].name == "service"@,
        event.fields[at].text.len() > 0,
        forall|j: int| at < j < event.fields.len() ==> (#[trigger] event.fields[j]).name != "service"@,
    ensures
        extracted(event.fields).service == event.fields[at].text,
        shown_service(event) == uppercase_of(event.fields[at].text),
{
    law_last_value_wins(event.fields, "service"@, at);
}

/// Of several function fields the last one is shown: where the field at `at`
/// is the last one called `function` and its text is not empty, the line
/// shows that text unchanged, whatever function fields came before.
pub proof fn law_last_function_is_shown(event: LogEventView, at: int)
    requires
        0 <= at < event.fields.len(),
        event.fields[at].name == "function"@,
        event.fields[at].text.len() > 0,
        forall|j: int| at < j < event.fields.len() ==> (#[trigger] event.fields[j]).name != "function"@,
    ensures
        shown_function(event) == event.fields[at].text,
{
    law_last_value_wins(event.fields, "function"@, at);
}

/// Two lines of the same event are equal but for the fifteen characters of
/// the timestamp: they have the same length, and they agree at every place
/// before and after the timestamp.
pub proof fn law_renderings_differ_only_in_timestamp(
    event: LogEventView,
    first: Seq<char>,
    second: Seq<char>,
)
    requires
        is_rendering_of(first, event),
        is_rendering_of(second, event),
    ensures
        first.len() == second.len(),
        first.len() == line_head(event).len() + 15 + line_tail(event).len(),
        forall|i: int|
            0 <= i < first.len() && !(line_head(event).len() <= i < line_head(event).len() + 15)
                ==> first[i] == second[i],
{
    let stamp_a = choose|t: Seq<char>| #[trigger] is_timestamp(t) && first == rendered_event(event, t);
    let stamp_b = choose|t: Seq<char>| #[trigger]
        is_timestamp(t) && second == rendered_event(event, t);
    law_line_layout(event, stamp_a);
    law_line_layout(event, stamp_b);
}

} // verus!
