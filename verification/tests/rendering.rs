use coppiot_rust_logger::render::{compose_line, display_service, render_event, render_line};
use coppiot_rust_logger::{Color, Field, FieldValue, HumanStyleFormatter, LogEvent, Severity};

const STAMP: &str = "Oct 28 22:05:01";

fn text(name: &str, value: &str) -> Field {
    Field { name: name.to_string(), value: FieldValue::Str(value.to_string()) }
}

fn debug(name: &str, rendering: &str) -> Field {
    Field { name: name.to_string(), value: FieldValue::Debug(rendering.to_string()) }
}

fn event(severity: Severity, fields: Vec<Field>) -> LogEvent {
    LogEvent { severity, fields }
}

#[test]
fn scenario_created_successfully_is_green() {
    let e = event(
        Severity::Info,
        vec![
            text("service", "service_name"),
            text("function", "function_name"),
            text("message", "Service created successfully"),
        ],
    );
    assert_eq!(
        render_event(&e, STAMP),
        "\x1b[37m[SERVICE_NAME][function_name][Oct 28 22:05:01]\x1b[0m\x1b[32m Service created successfully\x1b[0m\n"
    );
}

#[test]
fn scenario_error_without_service_and_function() {
    let e = event(Severity::Error, vec![text("message", "Failed to authenticate user")]);
    assert_eq!(
        render_event(&e, STAMP),
        "\x1b[37m[UNKNOWN][unknown][Oct 28 22:05:01]\x1b[0m\x1b[31m Failed to authenticate user\x1b[0m\n"
    );
}

#[test]
fn scenario_only_message_takes_defaults_and_info_colour() {
    let e = event(Severity::Info, vec![text("message", "Log with only message field")]);
    assert_eq!(
        render_event(&e, STAMP),
        "\x1b[37m[UNKNOWN][unknown][Oct 28 22:05:01]\x1b[0m\x1b[34m Log with only message field\x1b[0m\n"
    );
}

#[test]
fn event_without_any_field_shows_all_defaults() {
    for severity in [Severity::Info, Severity::Debug, Severity::Trace] {
        let e = event(severity, vec![]);
        assert_eq!(
            render_event(&e, STAMP),
            "\x1b[37m[UNKNOWN][unknown][Oct 28 22:05:01]\x1b[0m\x1b[34m <no message>\x1b[0m\n"
        );
    }
    assert_eq!(
        render_event(&event(Severity::Error, vec![]), STAMP),
        "\x1b[37m[UNKNOWN][unknown][Oct 28 22:05:01]\x1b[0m\x1b[31m <no message>\x1b[0m\n"
    );
    assert_eq!(
        render_event(&event(Severity::Warn, vec![]), STAMP),
        "\x1b[37m[UNKNOWN][unknown][Oct 28 22:05:01]\x1b[0m\x1b[33m <no message>\x1b[0m\n"
    );
}

#[test]
fn absent_service_is_upper_case_and_absent_function_lower_case() {
    let e = event(Severity::Info, vec![text("message", "m"), text("other", "x")]);
    let line = render_event(&e, STAMP);
    assert!(line.contains("[UNKNOWN]"));
    assert!(line.contains("[unknown]"));
    assert!(line.starts_with("\x1b[37m[UNKNOWN][unknown]["));
}

#[test]
fn service_called_unknown_is_shown_like_an_absent_one() {
    let given = render_line("unknown", "unknown", "m", Severity::Info, STAMP);
    let absent = render_line("", "", "m", Severity::Info, STAMP);
    assert_eq!(given, absent);
}

#[test]
fn absent_message_is_shown_as_placeholder() {
    let e = event(Severity::Info, vec![text("service", "api"), text("function", "run")]);
    assert_eq!(
        render_event(&e, STAMP),
        "\x1b[37m[API][run][Oct 28 22:05:01]\x1b[0m\x1b[34m <no message>\x1b[0m\n"
    );
}

#[test]
fn first_message_is_shown_never_a_later_one() {
    let e = event(
        Severity::Info,
        vec![text("message", "first"), text("message", "second"), debug("message", "\"third\"")],
    );
    assert_eq!(
        render_event(&e, STAMP),
        "\x1b[37m[UNKNOWN][unknown][Oct 28 22:05:01]\x1b[0m\x1b[34m first\x1b[0m\n"
    );
}

#[test]
fn empty_first_message_gives_way_to_the_next() {
    let e = event(Severity::Info, vec![text("message", ""), text("message", "second")]);
    assert_eq!(
        render_event(&e, STAMP),
        "\x1b[37m[UNKNOWN][unknown][Oct 28 22:05:01]\x1b[0m\x1b[34m second\x1b[0m\n"
    );
}

#[test]
fn last_service_and_function_are_shown() {
    let e = event(
        Severity::Info,
        vec![
            text("service", "one"),
            text("function", "alpha"),
            debug("service", "\"two\""),
            text("function", "beta"),
            text("message", "m"),
        ],
    );
    assert_eq!(
        render_event(&e, STAMP),
        "\x1b[37m[TWO][beta][Oct 28 22:05:01]\x1b[0m\x1b[34m m\x1b[0m\n"
    );
}

#[test]
fn empty_last_service_is_shown_as_unknown() {
    let e = event(Severity::Info, vec![text("service", "one"), text("service", "")]);
    assert!(render_event(&e, STAMP).starts_with("\x1b[37m[UNKNOWN][unknown]["));
}

#[test]
fn function_and_message_keep_their_case() {
    let line = render_line("MiXed", "MiXed", "MiXed", Severity::Info, STAMP);
    assert_eq!(line, "\x1b[37m[MIXED][MiXed][Oct 28 22:05:01]\x1b[0m\x1b[34m MiXed\x1b[0m\n");
}

#[test]
fn service_is_upper_cased_beyond_ascii() {
    assert_eq!(display_service("tschüß"), "TSCHÜSS");
    assert_eq!(display_service("service_name"), "SERVICE_NAME");
    assert_eq!(display_service(""), "UNKNOWN");
    let line = render_line("grüße", "f", "m", Severity::Info, STAMP);
    assert!(line.starts_with("\x1b[37m[GRÜSSE][f]["));
}

#[test]
fn success_wording_overrides_error_in_the_line() {
    let e = event(Severity::Error, vec![text("message", "Failed to mark task as done")]);
    assert_eq!(
        render_event(&e, STAMP),
        "\x1b[37m[UNKNOWN][unknown][Oct 28 22:05:01]\x1b[0m\x1b[32m Failed to mark task as done\x1b[0m\n"
    );
}

#[test]
fn compose_line_places_every_part() {
    assert_eq!(
        compose_line("S", "f", "T", Color::Warning, "hello"),
        "\x1b[37m[S][f][T]\x1b[0m\x1b[33m hello\x1b[0m\n"
    );
    assert_eq!(
        compose_line("", "", "", Color::Reset, ""),
        "\x1b[37m[][][]\x1b[0m\x1b[0m \x1b[0m\n"
    );
}

#[test]
fn same_event_and_timestamp_give_the_same_line() {
    let e = event(
        Severity::Warn,
        vec![text("service", "db"), text("function", "connect"), text("message", "slow")],
    );
    assert_eq!(render_event(&e, STAMP), render_event(&e, STAMP));
}

#[test]
fn other_timestamp_changes_only_the_timestamp() {
    let e = event(
        Severity::Warn,
        vec![text("service", "db"), text("function", "connect"), text("message", "slow")],
    );
    let a: Vec<char> = render_event(&e, "Jan 01 00:00:00").chars().collect();
    let b: Vec<char> = render_event(&e, "Dec 31 23:59:59").chars().collect();
    let head = "\x1b[37m[DB][connect][".chars().count();
    assert_eq!(a.len(), b.len());
    for i in 0..a.len() {
        if i < head || i >= head + 15 {
            assert_eq!(a[i], b[i]);
        }
    }
    let shown: String = a[head..head + 15].iter().collect();
    assert_eq!(shown, "Jan 01 00:00:00");
}

#[test]
fn formatting_twice_differs_at_most_in_the_timestamp() {
    let e = event(
        Severity::Error,
        vec![text("service", "auth"), text("function", "login"), text("message", "denied")],
    );
    let formatter = HumanStyleFormatter;
    let a: Vec<char> = formatter.format_event(&e).chars().collect();
    let b: Vec<char> = formatter.format_event(&e).chars().collect();
    let head = "\x1b[37m[AUTH][login][".chars().count();
    assert_eq!(a.len(), b.len());
    for i in 0..a.len() {
        if i < head || i >= head + 15 {
            assert_eq!(a[i], b[i]);
        }
    }
    let tail: String = a[head + 15..].iter().collect();
    assert_eq!(tail, "]\x1b[0m\x1b[31m denied\x1b[0m\n");
}

#[test]
fn formatted_line_carries_a_timestamp_of_the_local_clock() {
    let line = HumanStyleFormatter.format_event(&event(Severity::Info, vec![]));
    let chars: Vec<char> = line.chars().collect();
    let head = "\x1b[37m[UNKNOWN][unknown][".chars().count();
    let stamp: String = chars[head..head + 15].iter().collect();
    let months = ["Jan", "Feb", "Mar", "Apr", "May", "Jun", "Jul", "Aug", "Sep", "Oct", "Nov", "Dec"];
    assert!(months.contains(&&stamp[..3]));
    let bytes = stamp.as_bytes();
    assert_eq!(bytes[3], b' ');
    assert_eq!(bytes[6], b' ');
    assert_eq!(bytes[9], b':');
    assert_eq!(bytes[12], b':');
    for i in [4, 5, 7, 8, 10, 11, 13, 14] {
        assert!(bytes[i].is_ascii_digit());
    }
    let day: u32 = stamp[4..6].parse().unwrap();
    let hour: u32 = stamp[7..9].parse().unwrap();
    let minute: u32 = stamp[10..12].parse().unwrap();
    let second: u32 = stamp[13..15].parse().unwrap();
    assert!((1..=31).contains(&day));
    assert!(hour < 24);
    assert!(minute < 60);
    assert!(second <= 60);
    assert!(line.ends_with("]\x1b[0m\x1b[34m <no message>\x1b[0m\n"));
}
