use elan::error_codes::ErrorCodeCollector;
use elan::invocation::{
    code_or_failure, color_args, conclude, duration_ms, is_instrumented_tool, mentions_color,
    route, tool_run_event, Finish, Route, WaitOutcome,
};
use elan::text::{str_equal, str_starts_with};

fn strings(items: &[&str]) -> Vec<String> {
    items.iter().map(|s| s.to_string()).collect()
}

fn collect(lines: &[&str]) -> ErrorCodeCollector {
    let mut c = ErrorCodeCollector::new();
    for line in lines {
        c.observe_line(line);
    }
    c
}

#[test]
fn scenario_clean_run_records_no_errors() {
    let c = collect(&["note: ok\n"]);
    let outcome = WaitOutcome::Exited { code: Some(0) };
    let event = tool_run_event(12, &outcome, c);
    assert_eq!(event.duration_ms, 12);
    assert_eq!(event.exit_code, 0);
    assert!(event.errors.is_none());
    let end = conclude(&outcome, true);
    assert_eq!(end.finish, Finish::Exit { code: 0 });
    assert!(!end.notify_warning);
}

#[test]
fn scenario_repeated_error_code_is_kept_twice() {
    let c = collect(&["error: [E1101] bad token\n", "error: [E1101] bad token\n"]);
    let outcome = WaitOutcome::Exited { code: Some(1) };
    let event = tool_run_event(5, &outcome, c);
    assert_eq!(event.exit_code, 1);
    assert_eq!(event.errors, Some(strings(&["E1101", "E1101"])));
    assert_eq!(conclude(&outcome, true).finish, Finish::Exit { code: 1 });
}

#[test]
fn scenario_missing_executable_reports_failure() {
    let outcome = WaitOutcome::Failed { os_error: Some(2) };
    let event = tool_run_event(0, &outcome, ErrorCodeCollector::new());
    assert_eq!(event.exit_code, 2);
    assert!(event.errors.is_none());
    let end = conclude(&outcome, true);
    assert_eq!(end.finish, Finish::ReportFailure);
}

#[test]
fn failed_wait_without_os_code_records_generic_failure() {
    let outcome = WaitOutcome::Failed { os_error: None };
    let event = tool_run_event(0, &outcome, collect(&["[E0001]\n"]));
    assert_eq!(event.exit_code, 1);
    assert!(event.errors.is_none());
}

#[test]
fn exit_without_code_ends_with_generic_failure() {
    let outcome = WaitOutcome::Exited { code: None };
    assert_eq!(conclude(&outcome, true).finish, Finish::Exit { code: 1 });
    assert_eq!(tool_run_event(3, &outcome, ErrorCodeCollector::new()).exit_code, 1);
}

#[test]
fn log_store_failure_keeps_exit_code() {
    for code in [0, 1, 101, -4] {
        let outcome = WaitOutcome::Exited { code: Some(code) };
        let ok = conclude(&outcome, true);
        let failed = conclude(&outcome, false);
        assert_eq!(ok.finish, failed.finish);
        assert_eq!(failed.finish, Finish::Exit { code });
        assert!(failed.notify_warning);
        assert!(!ok.notify_warning);
    }
    let outcome = WaitOutcome::Failed { os_error: Some(13) };
    assert_eq!(conclude(&outcome, false).finish, Finish::ReportFailure);
}

#[test]
fn empty_stream_has_no_errors() {
    let c = ErrorCodeCollector::new();
    assert!(c.codes().is_empty());
    assert!(c.into_errors().is_none());
    let c = collect(&[""]);
    assert!(c.into_errors().is_none());
}

#[test]
fn malformed_brackets_are_not_codes() {
    let c = collect(&["[X1234] [E12] [E12345] E1234] [E1234\n"]);
    assert!(c.into_errors().is_none());
}

#[test]
fn every_code_in_a_line_is_found_in_order() {
    let c = collect(&["a [E0001] b [E0002][E0003]\n"]);
    assert_eq!(c.codes(), &strings(&["E0001", "E0002", "E0003"]));
}

#[test]
fn codes_keep_order_across_lines() {
    let c = collect(&["[E0009] first\n", "nothing here\n", "[Eabcd] then [E0009]"]);
    assert_eq!(c.into_errors(), Some(strings(&["E0009", "Eabcd", "E0009"])));
}

#[test]
fn code_characters_are_arbitrary_but_not_line_feeds() {
    let c = collect(&["[E a]]] [E\u{e9}\u{e9}\u{e9}\u{e9}]\n", "[E12\n", "34]\n"]);
    assert_eq!(c.codes(), &strings(&["E a]]", "E\u{e9}\u{e9}\u{e9}\u{e9}"]));
}

#[test]
fn overlapping_candidates_take_the_leftmost() {
    let c = collect(&["[E[E12]34]"]);
    assert_eq!(c.codes(), &strings(&["E[E12"]));
}

#[test]
fn collector_result_differs_from_the_line() {
    let c = collect(&["error: [E0042] oops"]);
    assert_eq!(c.codes(), &strings(&["E0042"]));
}

#[test]
fn color_forced_on_terminal_without_color_argument() {
    let args = strings(&["--run", "Main.lean"]);
    assert_eq!(color_args(&args, true), strings(&["--color", "always"]));
}

#[test]
fn explicit_color_argument_suppresses_forcing() {
    let args = strings(&["Main.lean", "--color=never"]);
    assert!(mentions_color(&args));
    assert!(color_args(&args, true).is_empty());
    assert!(color_args(&args, false).is_empty());
    let args = strings(&["--color", "never"]);
    assert!(color_args(&args, true).is_empty());
}

#[test]
fn no_terminal_no_color_argument() {
    let args = strings(&["Main.lean"]);
    assert!(!mentions_color(&args));
    assert!(color_args(&args, false).is_empty());
    assert_eq!(color_args(&Vec::new(), true), strings(&["--color", "always"]));
}

#[test]
fn color_prefix_must_start_the_argument() {
    let args = strings(&["-color", "x--color", "--colo"]);
    assert!(!mentions_color(&args));
    assert_eq!(color_args(&args, true).len(), 2);
}

#[test]
fn instrumented_tool_names() {
    assert!(is_instrumented_tool("lean"));
    assert!(is_instrumented_tool("lean.exe"));
    assert!(!is_instrumented_tool("leanc"));
    assert!(!is_instrumented_tool("lake"));
    assert!(!is_instrumented_tool("Lean"));
    assert!(!is_instrumented_tool(""));
}

#[test]
fn routing_needs_tool_and_enabled_telemetry() {
    assert_eq!(route("lean", true), Route::Telemetry);
    assert_eq!(route("lean.exe", true), Route::Telemetry);
    assert_eq!(route("lean", false), Route::Direct);
    assert_eq!(route("lake", true), Route::Direct);
    assert_eq!(route("lake", false), Route::Direct);
}

#[test]
fn duration_in_whole_milliseconds() {
    assert_eq!(duration_ms(0, 0), 0);
    assert_eq!(duration_ms(2, 345_678_901), 2345);
    assert_eq!(duration_ms(0, 999_999), 0);
    assert_eq!(duration_ms(1, 999_999_999), 1999);
}

#[test]
fn duration_saturates() {
    assert_eq!(duration_ms(u64::MAX, 0), u64::MAX);
    assert_eq!(duration_ms(u64::MAX / 1000, 999_000_000), u64::MAX);
    assert_eq!(duration_ms(u64::MAX / 1000, 0), u64::MAX / 1000 * 1000);
}

#[test]
fn missing_code_becomes_generic_failure() {
    assert_eq!(code_or_failure(None), 1);
    assert_eq!(code_or_failure(Some(0)), 0);
    assert_eq!(code_or_failure(Some(-9)), -9);
}

#[test]
fn text_helpers() {
    assert!(str_equal("", ""));
    assert!(str_equal("\u{e9}t\u{e9}", "\u{e9}t\u{e9}"));
    assert!(!str_equal("ab", "abc"));
    assert!(!str_equal("ab", "ac"));
    assert!(str_starts_with("--color=auto", "--color"));
    assert!(str_starts_with("x", ""));
    assert!(!str_starts_with("--col", "--color"));
}

#[test]
fn line_split_does_not_change_codes() {
    let by_lines = collect(&["x [E0001]\n", "[E0002] y\n", "z [E0003]"]);
    let whole = collect(&["x [E0001]\n[E0002] y\nz [E0003]"]);
    assert_eq!(by_lines.codes(), whole.codes());
    assert_eq!(whole.codes(), &strings(&["E0001", "E0002", "E0003"]));
}
