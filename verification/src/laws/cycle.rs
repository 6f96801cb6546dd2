//! Laws of a cycle and of the loop around it.

use vstd::prelude::*;

use crate::agent::{after_cycle, after_wake, start_loop, CycleEnd, LoopRecord, LoopRun, Woken};
use crate::child::{ChildOutcome, ChildSpec};
use crate::config::Config;
use crate::cycle::{
    after_child, after_collect, after_secure, cycle_step, is_cycle_trace, outcome_record,
    record_level, record_message, CycleError, CycleEvent, CycleRecord, CycleRun,
};
use crate::logging::Level;
use crate::metrics::{Metrics, MetricsError};
use crate::paths::path_text;
use crate::platform::PlatformError;
use crate::span::Span;

verus! {

/// How a child ended is what the log says of it. Only the exit code 0 is a completion; a child
/// that exited in any other way is reported with its code and all that it wrote, and one that
/// did not come to its end with the reason.
pub proof fn outcomes_are_recorded(
    spec: ChildSpec,
    outcome: ChildOutcome,
    record: CycleRecord,
    failed: PlatformError,
    words: String,
)
    requires
        call_ensures(outcome_record, (&spec, outcome), record),
        call_ensures(PlatformError::message, (&failed,), words),
    ensures
        record is Completed <==> (outcome matches ChildOutcome::Completed { code, .. } && code
            == Some(0i32)),
        outcome matches ChildOutcome::Completed { code, stdout, stderr } ==> if code == Some(0i32) {
            record matches CycleRecord::Completed { child_stdout } && child_stdout == stdout
        } else {
            record matches CycleRecord::Failed { code: c, stdout: out, stderr: err } && c == code
                && out == stdout && err == stderr
        },
        outcome is TimedOut ==> (record matches CycleRecord::TimedOut { timeout_secs }
            && timeout_secs == spec.timeout.secs),
        outcome is Cancelled ==> record is Cancelled,
        outcome matches ChildOutcome::SpawnFailed(io) ==> (record matches CycleRecord::SpawnFailed {
            path,
            error,
        } && path@ == path_text(spec.program) && error == io.message),
        outcome matches ChildOutcome::WaitFailed(io) ==> (record matches CycleRecord::WaitFailed {
            error,
        } && error == io.message),
        outcome is BindFailed <==> record is BindFailed,
        outcome == ChildOutcome::BindFailed(failed) ==> (record matches CycleRecord::BindFailed {
            error,
        } && error@ == words@),
{
}

/// The line about a child is information exactly where it exited with code 0 or was cancelled,
/// a warning exactly where it exited otherwise, and an error in every other case.
pub proof fn only_success_is_information(
    spec: ChildSpec,
    outcome: ChildOutcome,
    record: CycleRecord,
    level: Level,
    message: &'static str,
)
    requires
        call_ensures(outcome_record, (&spec, outcome), record),
        call_ensures(CycleRecord::level, (&record,), level),
        call_ensures(CycleRecord::message, (&record,), message),
    ensures
        level == Level::Info <==> outcome is Cancelled || (outcome matches ChildOutcome::Completed {
            code,
            ..
        } && code == Some(0i32)),
        level == Level::Warn <==> (outcome matches ChildOutcome::Completed { code, .. } && code
            != Some(0i32)),
        outcome matches ChildOutcome::Completed { code, .. } ==> message@ == if code == Some(0i32) {
            "child completed"@
        } else {
            "child exited with failure"@
        },
        outcome is TimedOut ==> message@ == "child timed out and was killed"@,
        outcome is Cancelled ==> message@ == "child wait cancelled by shutdown"@,
        outcome is SpawnFailed ==> message@ == "child could not be spawned"@,
        outcome is WaitFailed ==> message@ == "waiting for child failed"@,
        outcome is BindFailed ==> message@
            == "child could not be bound to the agent's lifetime and was killed"@,
{
}

/// The last line of a cycle tells how its child ended: `child completed`, as information,
/// exactly when the child exited with code 0; and a child that exited in any other way leaves a
/// warning with its code, its stdout and its stderr.
pub proof fn cycles_end_with_the_child(
    cfg: Config,
    runs: Seq<CycleRun>,
    events: Seq<CycleEvent>,
    records: Seq<Option<CycleRecord>>,
    outcome: ChildOutcome,
)
    requires
        is_cycle_trace(cfg, runs, events, records),
        events.len() > 0,
        events.last() == CycleEvent::ChildEnded(outcome),
    ensures
        records.last() is Some,
        record_level(records.last()->0) == Level::Info && record_message(records.last()->0)
            == "child completed"@ <== (outcome matches ChildOutcome::Completed { code, .. } && code
            == Some(0i32)),
        outcome matches ChildOutcome::Completed { code, stdout, stderr } ==> if code == Some(0i32) {
            records.last() == Some(CycleRecord::Completed { child_stdout: stdout })
        } else {
            &&& records.last() == Some(CycleRecord::Failed { code, stdout, stderr })
            &&& record_level(records.last()->0) == Level::Warn
        },
        !(outcome matches ChildOutcome::Completed { code, .. } && code == Some(0i32)) ==> !(
        records.last()->0 is Completed),
        runs.last() matches CycleRun::Ended(Ok(_)),
{
    let n = events.len() - 1;
    assert(cycle_step(cfg, runs[n], events[n], runs[n + 1], records[n]));
}

/// A sample is logged with its memory as it is and goes on to the child; without one the cycle
/// fails, and nothing is logged.
pub proof fn samples_are_logged_and_used(
    cfg: Config,
    collected: Result<Metrics, MetricsError>,
    turn: (CycleRun, Option<CycleRecord>),
    text: String,
    level: Level,
)
    requires
        call_ensures(after_collect, (collected,), turn),
        collected matches Ok(sample) ==> call_ensures(Metrics::utc_string, (&sample,), text),
        turn.1 matches Some(record) ==> call_ensures(CycleRecord::level, (&record,), level),
    ensures
        collected matches Ok(sample) ==> {
            &&& turn.0 == CycleRun::SecureLog { sample }
            &&& turn.1 matches Some(CycleRecord::Metrics { utc, rss_bytes })
            &&& utc@ == text@
            &&& rss_bytes == sample.rss_bytes
            &&& level == Level::Info
        },
        collected matches Err(err) ==> turn.1 is None && turn.0 == CycleRun::Ended(
            Err(CycleError::Collecting(err)),
        ),
{
    assert(cycle_step(cfg, CycleRun::Collect, CycleEvent::Collected(collected), turn.0, turn.1));
}

/// The child runs exactly when its log was secured: the configured binary, for the configured
/// time. Otherwise the cycle fails with the reason.
pub proof fn only_a_secured_log_gets_a_child(
    cfg: Config,
    sample: Metrics,
    secured: Result<(), PlatformError>,
    run: CycleRun,
)
    requires
        call_ensures(after_secure, (&cfg, sample, secured), run),
    ensures
        secured is Ok <==> run is RunChild,
        run matches CycleRun::RunChild { spec, args } ==> spec.program == cfg.child_path
            && spec.timeout == cfg.child_timeout && args@.len() == 6,
        secured matches Err(err) ==> (run matches CycleRun::Ended(
            Err(CycleError::Securing { path, source }),
        ) && source == err && path@ == path_text(cfg.child_log)),
{
}

/// Whatever became of the child, the cycle has succeeded, and it leaves the line that the
/// outcome deserves.
pub proof fn a_child_never_fails_a_cycle(
    spec: ChildSpec,
    outcome: ChildOutcome,
    turn: (CycleRun, Option<CycleRecord>),
)
    requires
        call_ensures(after_child, (spec, outcome), turn),
    ensures
        turn.0 matches CycleRun::Ended(Ok(_)),
        turn.1 is Some,
        turn.1->0 is Completed <==> (outcome matches ChildOutcome::Completed { code, .. } && code
            == Some(0i32)),
        turn.1->0 is Failed <==> (outcome matches ChildOutcome::Completed { code, .. } && code
            != Some(0i32)),
        turn.1->0 is TimedOut <==> outcome is TimedOut,
        turn.1->0 is Cancelled <==> outcome is Cancelled,
        turn.1->0 is SpawnFailed <==> outcome is SpawnFailed,
        turn.1->0 is WaitFailed <==> outcome is WaitFailed,
        turn.1->0 is BindFailed <==> outcome is BindFailed,
{
}

/// A loop waits first, for the period that it was given.
pub proof fn loops_keep_their_period(period: Span, turn: (LoopRun, LoopRecord))
    requires
        call_ensures(start_loop, (period,), turn),
    ensures
        turn.0 == LoopRun::Wait,
        turn.1 matches LoopRecord::Started { period: told } && told == period,
{
}

/// A tick runs a cycle, and a cancellation ends the loop with a line that says so.
pub proof fn ticks_run_cycles(woken: Woken, turn: (LoopRun, Option<LoopRecord>))
    requires
        call_ensures(after_wake, (woken,), turn),
    ensures
        turn.0 == LoopRun::RunCycle <==> woken == Woken::Ticked,
        turn.0 == LoopRun::Ended <==> woken == Woken::Cancelled,
        turn.1 == Some(LoopRecord::Stopped) <==> woken == Woken::Cancelled,
        turn.1 is None <==> woken == Woken::Ticked,
{
}

/// However a cycle ended, the loop waits for the next tick; an error and a panic leave their
/// text in the log.
pub proof fn loops_outlive_their_cycles(end: CycleEnd, turn: (LoopRun, Option<LoopRecord>))
    requires
        call_ensures(after_cycle, (end,), turn),
    ensures
        turn.0 == LoopRun::Wait,
        turn.1 is None <==> end is Succeeded,
        end matches CycleEnd::Failed(text) ==> (turn.1 matches Some(
            LoopRecord::CycleFailed { error },
        ) && error == text),
        end matches CycleEnd::Panicked(text) ==> (turn.1 matches Some(
            LoopRecord::CyclePanicked { error },
        ) && error == text),
{
}

/// Only a failure of a cycle is logged as an error by the loop.
pub proof fn loop_levels(record: LoopRecord, level: Level, message: &'static str)
    requires
        call_ensures(LoopRecord::level, (&record,), level),
        call_ensures(LoopRecord::message, (&record,), message),
    ensures
        level == Level::Error <==> record is CycleFailed || record is CyclePanicked,
        level == Level::Info <==> record is Started || record is Stopped,
        record is Started ==> message@ == "agent loop started"@,
        record is Stopped ==> message@ == "agent loop stopped"@,
        record is CycleFailed ==> message@ == "cycle failed"@,
        record is CyclePanicked ==> message@ == "cycle panicked; continuing"@,
{
}

/// A cycle that returned an error counts as failed, and any other as succeeded.
pub proof fn returned_cycles_end_as_they_returned(result: Result<(), CycleError>, end: CycleEnd)
    requires
        call_ensures(CycleEnd::returned, (result,), end),
    ensures
        end is Succeeded <==> result is Ok,
        end is Failed <==> result is Err,
{
}

} // verus!
