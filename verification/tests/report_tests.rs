// Report generation: the failure-cause histogram, decimal rendering, and
// the report file text.

use p2p::attempts::{AttemptLog, AttemptOutcome};
use p2p::report::{
    build_report, compute_histogram, contains_substr, render_report, u64_to_string,
};

fn sample_log() -> AttemptLog {
    let mut log = AttemptLog::new();
    log.record(Some("A".to_string()), 10, AttemptOutcome::Success, None);
    log.record(
        Some("B".to_string()),
        20,
        AttemptOutcome::Error,
        Some("io error: Timeout while dialing".to_string()),
    );
    log.record(
        Some("C".to_string()),
        30,
        AttemptOutcome::Error,
        Some("transport: ConnectionRefused by peer".to_string()),
    );
    log.record(Some("D".to_string()), 40, AttemptOutcome::Error, Some("no route".to_string()));
    log.record(Some("E".to_string()), 50, AttemptOutcome::Timeout, Some("Timeout".to_string()));
    log.record(None, 60, AttemptOutcome::Error, None);
    log
}

#[test]
fn test_histogram_buckets_sum_to_error_count() {
    let log = sample_log();
    let h = compute_histogram(&log);
    assert_eq!(h.timeout_errors, 1);
    assert_eq!(h.refused_errors, 1);
    assert_eq!(h.other_errors, 2);
    // Four records carry outcome Error; Success/Timeout outcomes are not
    // part of the histogram even when their text holds a token.
    assert_eq!(h.timeout_errors + h.refused_errors + h.other_errors, 4);
}

#[test]
fn test_histogram_timeout_token_takes_priority() {
    let mut log = AttemptLog::new();
    log.record(
        None,
        1,
        AttemptOutcome::Error,
        Some("Timeout after ConnectionRefused".to_string()),
    );
    let h = compute_histogram(&log);
    assert_eq!(h.timeout_errors, 1);
    assert_eq!(h.refused_errors, 0);
    assert_eq!(h.other_errors, 0);
}

#[test]
fn test_histogram_empty_log() {
    let log = AttemptLog::new();
    let h = compute_histogram(&log);
    assert_eq!(h.timeout_errors + h.refused_errors + h.other_errors, 0);
}

#[test]
fn test_contains_substr_cases() {
    assert!(contains_substr("connection Timeout happened", "Timeout"));
    assert!(contains_substr("Timeout", "Timeout"));
    assert!(contains_substr("x", ""));
    assert!(contains_substr("", ""));
    assert!(!contains_substr("", "Timeout"));
    assert!(!contains_substr("timeout", "Timeout"));
    assert!(!contains_substr("Timeou", "Timeout"));
    assert!(contains_substr("abcTimeout", "Timeout"));
}

#[test]
fn test_u64_to_string_exact() {
    assert_eq!(u64_to_string(0), "0");
    assert_eq!(u64_to_string(7), "7");
    assert_eq!(u64_to_string(10), "10");
    assert_eq!(u64_to_string(12345), "12345");
    assert_eq!(u64_to_string(u64::MAX), "18446744073709551615");
}

#[test]
fn test_build_report_fields() {
    let log = sample_log();
    let r = build_report(true, 100, 160, 6, 10, &log);
    assert!(r.passed);
    assert_eq!(r.duration_secs, 60);
    assert_eq!(r.attempts_made, 6);
    assert_eq!(r.max_attempts, 10);
    assert_eq!(r.histogram.timeout_errors, 1);
    assert_eq!(r.histogram.refused_errors, 1);
    assert_eq!(r.histogram.other_errors, 2);
}

#[test]
fn test_render_report_exact_text() {
    let mut log = AttemptLog::new();
    log.record(Some("A".to_string()), 10, AttemptOutcome::Success, None);
    log.record(None, 20, AttemptOutcome::Error, Some("Timeout".to_string()));
    let text = render_report(false, 61, 3, 10, &log);
    let expected = "REACHABILITY TEST REPORT\n\
                    ========================\n\
                    Test Result: FAILED\n\
                    Test Duration: 61 seconds\n\
                    Connection Attempts: 3/10\n\
                    \n\
                    Connection Attempts Details:\n\
                    \x20 Peer: A | Time: 10 | Result: success | Error: None\n\
                    \x20 Peer: unknown | Time: 20 | Result: error | Error: Timeout\n\
                    \n\
                    Failure Statistics:\n\
                    - Timeout Errors: 1\n\
                    - Connection Refused: 0\n\
                    - Other Errors: 0\n";
    assert_eq!(text, expected);
}
