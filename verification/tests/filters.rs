use symposium_cargo::diagnostics::DiagnosticRecord;
use symposium_cargo::filter_json_messages;
use symposium_cargo::filter_stderr;

#[test]
fn stderr_drops_lock_wait_line() {
    let out = filter_stderr("Blocking waiting for file lock on package cache\nerror: oops");
    assert_eq!(out, "error: oops");
}

#[test]
fn stderr_without_matching_lines_is_unchanged() {
    let input = "error[E0308]: mismatched types\n --> src/main.rs:2:5\n  = note: expected `u32`";
    assert_eq!(filter_stderr(input), input);
}

#[test]
fn stderr_preserves_order_around_dropped_line() {
    let input = "first\nBlocking waiting for file lock on build directory\nsecond\nthird";
    assert_eq!(filter_stderr(input), "first\nsecond\nthird");
}

#[test]
fn stderr_empty_input_stays_empty() {
    assert_eq!(filter_stderr(""), "");
}

#[test]
fn stderr_drops_every_matching_line() {
    let input = "Blocking waiting for file lock on package cache\nBlocking waiting for file lock on package cache";
    assert_eq!(filter_stderr(input), "");
}

#[test]
fn stderr_keeps_line_with_partial_match_text() {
    let input = "Blocking waiting for something else\nfile lock released";
    assert_eq!(filter_stderr(input), input);
}

#[test]
fn filter_keeps_message_then_finished() {
    let stdout = "{\"reason\":\"compiler-message\",\"message\":{\"rendered\":\"error: x\\n\"}}\n{\"reason\":\"build-finished\",\"success\":false}";
    let records = filter_json_messages(stdout);
    assert_eq!(records.len(), 2);
    assert_eq!(
        records[0],
        DiagnosticRecord::CompilerMessage {
            rendered: Some("error: x\n".to_string()),
            package_id: None,
        }
    );
    assert_eq!(records[1], DiagnosticRecord::BuildFinished { success: false });
}

#[test]
fn filter_drops_unparseable_lines() {
    let stdout = "Compiling foo v0.1.0 (/w)\nnot json at all\n{\"reason\":\"build-finished\"}";
    let records = filter_json_messages(stdout);
    assert_eq!(records.len(), 1);
    assert_eq!(records[0], DiagnosticRecord::BuildFinished { success: true });
}

#[test]
fn filter_drops_other_record_kinds() {
    let stdout = "{\"reason\":\"compiler-artifact\",\"package_id\":\"foo 0.1.0\"}\n{\"reason\":\"build-script-executed\"}";
    let records = filter_json_messages(stdout);
    assert_eq!(records.len(), 0);
}

#[test]
fn filter_extracts_package_id() {
    let stdout = "{\"reason\":\"compiler-message\",\"package_id\":\"foo 0.1.0\",\"message\":{\"rendered\":\"warning: y\"}}";
    let records = filter_json_messages(stdout);
    assert_eq!(records.len(), 1);
    assert_eq!(
        records[0],
        DiagnosticRecord::CompilerMessage {
            rendered: Some("warning: y".to_string()),
            package_id: Some("foo 0.1.0".to_string()),
        }
    );
}

#[test]
fn filter_emits_at_most_one_record_per_line() {
    let stdout = "{\"reason\":\"compiler-artifact\"}\nprogress line\n{\"reason\":\"compiler-message\",\"message\":{\"rendered\":\"error: z\"}}\n{\"reason\":\"build-finished\",\"success\":true}";
    let line_count = stdout.lines().count();
    let records = filter_json_messages(stdout);
    assert!(records.len() <= line_count);
    assert_eq!(records.len(), 2);
}

#[test]
fn filter_empty_input_gives_no_records() {
    assert_eq!(filter_json_messages("").len(), 0);
}
