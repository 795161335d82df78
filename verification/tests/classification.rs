use coppiot_rust_logger::classify::{classify, classify_lowered, mentions_success};
use coppiot_rust_logger::{Color, Severity};

const SEVERITIES: [Severity; 5] =
    [Severity::Error, Severity::Warn, Severity::Info, Severity::Debug, Severity::Trace];

const KEYWORDS: [&str; 10] = [
    "succe",
    "created",
    "complete",
    "finished",
    "done",
    "ready",
    "initialized",
    "connected",
    "deployed",
    "started",
];

#[test]
fn colour_codes_are_the_fixed_escape_sequences() {
    assert_eq!(Color::Error.code(), "\x1b[31m");
    assert_eq!(Color::Warning.code(), "\x1b[33m");
    assert_eq!(Color::Info.code(), "\x1b[34m");
    assert_eq!(Color::Success.code(), "\x1b[32m");
    assert_eq!(Color::Metadata.code(), "\x1b[37m");
    assert_eq!(Color::Reset.code(), "\x1b[0m");
}

#[test]
fn every_keyword_gives_success_at_every_severity() {
    for keyword in KEYWORDS {
        for severity in SEVERITIES {
            assert_eq!(classify(severity, keyword), Color::Success);
            assert_eq!(classify(severity, &format!("the task {} today", keyword)), Color::Success);
            assert_eq!(classify_lowered(severity, keyword), Color::Success);
        }
    }
}

#[test]
fn keywords_match_without_regard_to_case() {
    for severity in SEVERITIES {
        assert_eq!(classify(severity, "DONE"), Color::Success);
        assert_eq!(classify(severity, "Service Created"), Color::Success);
        assert_eq!(classify(severity, "all SYSTEMS rEaDy"), Color::Success);
        assert_eq!(classify(severity, "SUCCESS"), Color::Success);
        assert_eq!(classify(severity, "Succeeded"), Color::Success);
    }
}

#[test]
fn lowered_text_is_matched_as_it_stands() {
    assert!(mentions_success("done"));
    assert!(!mentions_success("DONE"));
    assert_eq!(classify_lowered(Severity::Error, "DONE"), Color::Error);
    assert_eq!(classify_lowered(Severity::Error, "done"), Color::Success);
}

#[test]
fn severity_decides_without_a_keyword() {
    let message = "Failed to authenticate user";
    assert_eq!(classify(Severity::Error, message), Color::Error);
    assert_eq!(classify(Severity::Warn, message), Color::Warning);
    assert_eq!(classify(Severity::Info, message), Color::Info);
    assert_eq!(classify(Severity::Debug, message), Color::Info);
    assert_eq!(classify(Severity::Trace, message), Color::Info);
}

#[test]
fn failure_that_mentions_done_counts_as_success() {
    assert_eq!(classify(Severity::Error, "Failed to mark task as done"), Color::Success);
    assert_eq!(classify(Severity::Warn, "Failed to mark task as done"), Color::Success);
}

#[test]
fn near_misses_are_no_keywords() {
    assert!(!mentions_success(""));
    assert!(!mentions_success("succ"));
    assert!(!mentions_success("don e"));
    assert!(!mentions_success("create"));
    assert!(!mentions_success("start"));
    assert!(!mentions_success("<no message>"));
    assert!(mentions_success("xsuccex"));
    assert!(mentions_success("unfinished"));
    assert_eq!(classify(Severity::Error, ""), Color::Error);
    assert_eq!(classify(Severity::Info, "<no message>"), Color::Info);
}

#[test]
fn keyword_at_either_end_is_found() {
    assert!(mentions_success("started the engine"));
    assert!(mentions_success("the engine has started"));
    assert!(mentions_success("ready"));
}
