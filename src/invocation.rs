use vstd::prelude::*;

use crate::error_codes::{errors_field_matches, ErrorCodeCollector};
use crate::text::{has_prefix, str_equal, str_starts_with, views};

verus! {

/// Whether `name` designates the instrumented tool, with or without the
/// platform's executable-file suffix.
pub open spec fn is_instrumented_tool_name(name: Seq<char>) -> bool {
    name == "lean"@ || name == "lean.exe"@
}

/// Whether `arg0` names the instrumented tool.
pub fn is_instrumented_tool(arg0: &str) -> (r: bool)
    ensures
        r == is_instrumented_tool_name(arg0@),
{
    str_equal(arg0, "lean") || str_equal(arg0, "lean.exe")
}

/// The two ways of running a command.
#[derive(Clone, Copy, Debug, PartialEq, Eq, Structural)]
pub enum Route {
    /// Run the command as if launched directly, without observing it.
    Direct,
    /// Capture diagnostics, time the run and record a tool-run event.
    Telemetry,
}

/// The path a command takes. Whether telemetry is enabled only matters for
/// the instrumented tool, so callers need to ask the configuration only when
/// `is_instrumented_tool(arg0)` holds.
pub fn route(arg0: &str, telemetry_enabled: bool) -> (r: Route)
    ensures
        r == (if is_instrumented_tool_name(arg0@) && telemetry_enabled {
            Route::Telemetry
        } else {
            Route::Direct
        }),
{
    if is_instrumented_tool(arg0) && telemetry_enabled {
        Route::Telemetry
    } else {
        Route::Direct
    }
}

/// An argument that controls the child's colouring.
pub open spec fn is_color_arg(arg: Seq<char>) -> bool {
    has_prefix(arg, "--color"@)
}

/// Whether some argument already controls the child's colouring.
pub open spec fn has_color_arg(args: Seq<Seq<char>>) -> bool {
    exists|i: int| 0 <= i < args.len() && is_color_arg(#[trigger] args[i])
}

/// The arguments appended to force colour: both when stderr is a terminal and
/// no colour argument was given, none otherwise.
pub open spec fn forced_color_args(args: Seq<Seq<char>>, stderr_is_tty: bool) -> Seq<Seq<char>> {
    if stderr_is_tty && !has_color_arg(args) {
        seq!["--color"@, "always"@]
    } else {
        seq![]
    }
}

/// Whether one of `args` begins with the colour option.
pub fn mentions_color(args: &Vec<String>) -> (r: bool)
    ensures
        r == has_color_arg(views(args@)),
{
    let mut i: usize = 0;
    while i < args.len()
        invariant
            i <= args@.len(),
            forall|j: int| 0 <= j < i ==> !is_color_arg(#[trigger] views(args@)[j]),
        decreases args.len() - i,
    {
        if str_starts_with(args[i].as_str(), "--color") {
            assert(is_color_arg(views(args@)[i as int]));
            return true;
        }
        i = i + 1;
    }
    false
}

/// The arguments to append to `args` (the textual form of the caller's
/// arguments) so that the child colours its output when stderr is a terminal.
/// An explicit colour argument is never duplicated or overridden.
pub fn color_args(args: &Vec<String>, stderr_is_tty: bool) -> (r: Vec<String>)
    ensures
        views(r@) == forced_color_args(views(args@), stderr_is_tty),
        has_color_arg(views(args@)) ==> r@.len() == 0,
        !stderr_is_tty ==> r@.len() == 0,
{
    let mut r: Vec<String> = Vec::new();
    if stderr_is_tty && !mentions_color(args) {
        r.push(String::from_str("--color"));
        r.push(String::from_str("always"));
        assert(views(r@) == seq!["--color"@, "always"@]);
    } else {
        assert(views(r@) == Seq::<Seq<char>>::empty());
    }
    r
}

/// Milliseconds in a duration of `secs` seconds and `subsec_nanos` nanoseconds,
/// with the sub-millisecond part dropped.
pub open spec fn millis_of(secs: u64, subsec_nanos: u32) -> int {
    secs * 1000 + subsec_nanos / 1_000_000
}

/// The duration in whole milliseconds, saturating at `u64::MAX`.
pub fn duration_ms(secs: u64, subsec_nanos: u32) -> (r: u64)
    ensures
        r == (if millis_of(secs, subsec_nanos) <= u64::MAX {
            millis_of(secs, subsec_nanos)
        } else {
            u64::MAX as int
        }),
{
    let part: u64 = (subsec_nanos / 1_000_000) as u64;
    if secs > (u64::MAX - part) / 1000 {
        assert(secs * 1000 + part > u64::MAX) by (nonlinear_arith)
            requires
                secs > (u64::MAX - part) / 1000,
                part <= 4294,
        ;
        u64::MAX
    } else {
        assert(secs * 1000 + part <= u64::MAX) by (nonlinear_arith)
            requires
                secs <= (u64::MAX - part) / 1000,
                part <= 4294,
        ;
        secs * 1000 + part
    }
}

/// The exit code recorded when the actual one is unavailable.
pub const GENERIC_FAILURE: i32 = 1;

/// `code`, or the generic failure code where there is none.
pub fn code_or_failure(code: Option<i32>) -> (r: i32)
    ensures
        r == (match code {
            Some(c) => c,
            None => GENERIC_FAILURE,
        }),
{
    match code {
        Some(c) => c,
        None => GENERIC_FAILURE,
    }
}

/// What waiting on the child gave.
#[derive(Clone, Copy, Debug, PartialEq, Eq, Structural)]
pub enum WaitOutcome {
    /// The child ran and terminated; `code` is its exit code, if it has one.
    Exited { code: Option<i32> },
    /// The child could not be spawned or waited on; `os_error` is the raw
    /// operating-system error code, if there is one.
    Failed { os_error: Option<i32> },
}

/// The exit code recorded for an outcome.
pub open spec fn recorded_exit_code(outcome: WaitOutcome) -> i32 {
    match outcome {
        WaitOutcome::Exited { code: Some(c) } => c,
        WaitOutcome::Failed { os_error: Some(c) } => c,
        _ => GENERIC_FAILURE,
    }
}

/// The telemetry record of one run of the instrumented tool.
#[derive(Debug)]
pub struct ToolRunEvent {
    pub duration_ms: u64,
    pub exit_code: i32,
    /// The error codes found in the diagnostics, in order; `None` when none was.
    pub errors: Option<Vec<String>>,
}

/// The tool-run event for a run that took `duration_ms` and ended in
/// `outcome`, where `collected` saw the child's diagnostics. A child that
/// could not be run has no diagnostics, so its event carries no errors.
pub fn tool_run_event(duration_ms: u64, outcome: &WaitOutcome, collected: ErrorCodeCollector) -> (r:
    ToolRunEvent)
    ensures
        r.duration_ms == duration_ms,
        r.exit_code == recorded_exit_code(*outcome),
        errors_field_matches(
            r.errors,
            if outcome is Exited {
                collected@
            } else {
                Seq::empty()
            },
        ),
{
    match outcome {
        WaitOutcome::Exited { code } => ToolRunEvent {
            duration_ms,
            exit_code: code_or_failure(*code),
            errors: collected.into_errors(),
        },
        WaitOutcome::Failed { os_error } => ToolRunEvent {
            duration_ms,
            exit_code: code_or_failure(*os_error),
            errors: None,
        },
    }
}

/// How an instrumented invocation ends.
#[derive(Clone, Copy, Debug, PartialEq, Eq, Structural)]
pub enum Finish {
    /// Terminate the process with this exit code.
    Exit { code: i32 },
    /// Return the spawn or wait failure to the caller, naming the executable.
    ReportFailure,
}

/// What follows the attempt to append the tool-run event to the log store.
#[derive(Clone, Copy, Debug, PartialEq, Eq, Structural)]
pub struct Conclusion {
    /// Report a non-fatal cleanup warning through the notification sink.
    pub notify_warning: bool,
    pub finish: Finish,
}

/// The end an outcome calls for, whatever became of the telemetry event.
pub open spec fn finish_of(outcome: WaitOutcome) -> Finish {
    match outcome {
        WaitOutcome::Exited { code: Some(c) } => Finish::Exit { code: c },
        WaitOutcome::Exited { code: None } => Finish::Exit { code: GENERIC_FAILURE },
        WaitOutcome::Failed { .. } => Finish::ReportFailure,
    }
}

/// The end of an instrumented invocation after the event was handed to the log
/// store, where `appended` tells whether the store accepted it. A refusal is
/// only reported as a warning: it never changes how the invocation ends.
pub fn conclude(outcome: &WaitOutcome, appended: bool) -> (r: Conclusion)
    ensures
        r.notify_warning == !appended,
        r.finish == finish_of(*outcome),
        forall|c: i32| *outcome == (WaitOutcome::Exited { code: Some(c) }) ==> r.finish == (Finish::Exit { code: c }),
{
    let finish = match outcome {
        WaitOutcome::Exited { code } => Finish::Exit { code: code_or_failure(*code) },
        WaitOutcome::Failed { .. } => Finish::ReportFailure,
    };
    Conclusion { notify_warning: !appended, finish }
}

} // verus!
