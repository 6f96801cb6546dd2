//! One collection cycle: collect, log, secure the child log, run the child, log the outcome.
//! Only metric collection and securing the log return errors; every child outcome is logged
//! and treated as success for the loop.

use vstd::prelude::*;

use crate::child::{build_args, is_child_args, ChildArg, ChildOutcome, ChildSpec};
use crate::config::Config;
use crate::logging::Level;
use crate::metrics::{rfc3339_millis, Metrics, MetricsError};
use crate::paths;
use crate::paths::path_text;
use crate::platform::{platform_error_chain, platform_error_text, PlatformError};

verus! {

/// Why a cycle failed.
#[derive(Debug)]
pub enum CycleError {
    /// The metrics could not be collected.
    Collecting(MetricsError),
    /// The child log could not be secured.
    Securing {
        /// The child log.
        path: String,
        /// What went wrong.
        source: PlatformError,
    },
}

/// The text of a cycle error, with its causes.
pub open spec fn cycle_error_text(err: CycleError) -> Seq<char> {
    match err {
        CycleError::Collecting(_) => "collecting metrics: "@
            + "process memory statistics are unavailable"@,
        CycleError::Securing { path, source } => "securing child log "@ + path@ + ": "@
            + platform_error_chain(source),
    }
}

impl CycleError {
    /// The error and its causes as one line of text.
    pub fn message(&self) -> (text: String)
        ensures
            text@ == cycle_error_text(*self),
    {
        match self {
            CycleError::Collecting(source) => {
                let mut text = "collecting metrics: ".to_owned();
                text.append(source.message().as_str());
                text
            },
            CycleError::Securing { path, source } => {
                let mut text = "securing child log ".to_owned();
                text.append(path.as_str());
                text.append(": ");
                text.append(source.chain().as_str());
                text
            },
        }
    }
}

/// A line that a cycle writes to the agent log.
#[derive(Debug, PartialEq, Eq)]
pub enum CycleRecord {
    /// The metrics were collected.
    Metrics {
        /// The sample time.
        utc: String,
        /// The resident memory.
        rss_bytes: u64,
    },
    /// The child exited with code 0.
    Completed {
        /// What the child wrote.
        child_stdout: String,
    },
    /// The child exited otherwise.
    Failed {
        /// Exit code, `None` if killed by a signal.
        code: Option<i32>,
        /// What it wrote to stdout.
        stdout: String,
        /// What it wrote to stderr.
        stderr: String,
    },
    /// The child ran out of time.
    TimedOut {
        /// The time it had, in whole seconds.
        timeout_secs: u64,
    },
    /// The wait was cut short by a shutdown.
    Cancelled,
    /// The child could not be started.
    SpawnFailed {
        /// The child binary.
        path: String,
        /// What went wrong.
        error: String,
    },
    /// Waiting for the child failed.
    WaitFailed {
        /// What went wrong.
        error: String,
    },
    /// The child could not be bound to the agent's lifetime.
    BindFailed {
        /// What went wrong.
        error: String,
    },
}

/// The level of a record: information where things went as they should, a warning where the
/// child itself reported failure, and an error where it could not be run to its end.
pub open spec fn record_level(record: CycleRecord) -> Level {
    match record {
        CycleRecord::Metrics { .. } => Level::Info,
        CycleRecord::Completed { .. } => Level::Info,
        CycleRecord::Cancelled => Level::Info,
        CycleRecord::Failed { .. } => Level::Warn,
        CycleRecord::TimedOut { .. } => Level::Error,
        CycleRecord::SpawnFailed { .. } => Level::Error,
        CycleRecord::WaitFailed { .. } => Level::Error,
        CycleRecord::BindFailed { .. } => Level::Error,
    }
}

/// The message of a record.
pub open spec fn record_message(record: CycleRecord) -> Seq<char> {
    match record {
        CycleRecord::Metrics { .. } => "metrics"@,
        CycleRecord::Completed { .. } => "child completed"@,
        CycleRecord::Failed { .. } => "child exited with failure"@,
        CycleRecord::TimedOut { .. } => "child timed out and was killed"@,
        CycleRecord::Cancelled => "child wait cancelled by shutdown"@,
        CycleRecord::SpawnFailed { .. } => "child could not be spawned"@,
        CycleRecord::WaitFailed { .. } => "waiting for child failed"@,
        CycleRecord::BindFailed { .. } =>
            "child could not be bound to the agent's lifetime and was killed"@,
    }
}

impl CycleRecord {
    /// The level at which the record is logged.
    pub fn level(&self) -> (level: Level)
        ensures
            level == record_level(*self),
    {
        match self {
            CycleRecord::Metrics { .. } => Level::Info,
            CycleRecord::Completed { .. } => Level::Info,
            CycleRecord::Cancelled => Level::Info,
            CycleRecord::Failed { .. } => Level::Warn,
            CycleRecord::TimedOut { .. } => Level::Error,
            CycleRecord::SpawnFailed { .. } => Level::Error,
            CycleRecord::WaitFailed { .. } => Level::Error,
            CycleRecord::BindFailed { .. } => Level::Error,
        }
    }

    /// The message of the record, without its fields.
    pub fn message(&self) -> (message: &'static str)
        ensures
            message@ == record_message(*self),
    {
        match self {
            CycleRecord::Metrics { .. } => "metrics",
            CycleRecord::Completed { .. } => "child completed",
            CycleRecord::Failed { .. } => "child exited with failure",
            CycleRecord::TimedOut { .. } => "child timed out and was killed",
            CycleRecord::Cancelled => "child wait cancelled by shutdown",
            CycleRecord::SpawnFailed { .. } => "child could not be spawned",
            CycleRecord::WaitFailed { .. } => "waiting for child failed",
            CycleRecord::BindFailed { .. } =>
                "child could not be bound to the agent's lifetime and was killed",
        }
    }
}

/// A cycle, by what has to be done next.
#[derive(Debug)]
pub enum CycleRun {
    /// Take a sample.
    Collect,
    /// Create and lock the child log.
    SecureLog {
        /// The sample that the child will get.
        sample: Metrics,
    },
    /// Run the child to its end.
    RunChild {
        /// The child.
        spec: ChildSpec,
        /// Its arguments.
        args: Vec<ChildArg>,
    },
    /// Nothing: the cycle is over.
    Ended(Result<(), CycleError>),
}

/// What the steps of a cycle report.
pub enum CycleEvent {
    /// A sample was taken, or not.
    Collected(Result<Metrics, MetricsError>),
    /// The child log was secured, or not.
    Secured(Result<(), PlatformError>),
    /// The child invocation ended.
    ChildEnded(ChildOutcome),
}

/// `record` is the line that reports `sample`.
pub open spec fn reports_sample(record: CycleRecord, sample: Metrics) -> bool {
    &&& record matches CycleRecord::Metrics { utc, rss_bytes }
    &&& utc@ == rfc3339_millis(sample.utc.secs(), sample.utc.nanos())
    &&& rss_bytes == sample.rss_bytes
}

/// `record` is the line that reports how the invocation of a child ended.
pub open spec fn reports_outcome(
    record: CycleRecord,
    spec: ChildSpec,
    outcome: ChildOutcome,
) -> bool {
    match outcome {
        ChildOutcome::Completed { code, stdout, stderr } => if code == Some(0i32) {
            record == CycleRecord::Completed { child_stdout: stdout }
        } else {
            record == CycleRecord::Failed { code, stdout, stderr }
        },
        ChildOutcome::TimedOut => record == CycleRecord::TimedOut {
            timeout_secs: spec.timeout.secs,
        },
        ChildOutcome::Cancelled => record == CycleRecord::Cancelled,
        ChildOutcome::SpawnFailed(err) => record matches CycleRecord::SpawnFailed { path, error }
            && path@ == path_text(spec.program) && error == err.message,
        ChildOutcome::WaitFailed(err) => record == CycleRecord::WaitFailed { error: err.message },
        ChildOutcome::BindFailed(err) => record matches CycleRecord::BindFailed { error }
            && error@ == platform_error_text(err),
    }
}

/// `after` is where a cycle at `before` stands once `event` was reported, and `record` the
/// line that it logs on the way.
pub open spec fn cycle_step(
    cfg: Config,
    before: CycleRun,
    event: CycleEvent,
    after: CycleRun,
    record: Option<CycleRecord>,
) -> bool {
    match (before, event) {
        (CycleRun::Collect, CycleEvent::Collected(Ok(sample))) => {
            &&& after == CycleRun::SecureLog { sample }
            &&& record matches Some(line)
            &&& reports_sample(line, sample)
        },
        (CycleRun::Collect, CycleEvent::Collected(Err(err))) => {
            &&& after == CycleRun::Ended(Err(CycleError::Collecting(err)))
            &&& record is None
        },
        (CycleRun::SecureLog { sample }, CycleEvent::Secured(Ok(_))) => {
            &&& record is None
            &&& after matches CycleRun::RunChild { spec, args }
            &&& spec == (ChildSpec { program: cfg.child_path, timeout: cfg.child_timeout })
            &&& is_child_args(args@, sample, cfg.child_log)
        },
        (CycleRun::SecureLog { sample }, CycleEvent::Secured(Err(err))) => {
            &&& record is None
            &&& after matches CycleRun::Ended(Err(CycleError::Securing { path, source }))
            &&& path@ == path_text(cfg.child_log)
            &&& source == err
        },
        (CycleRun::RunChild { spec, args }, CycleEvent::ChildEnded(outcome)) => {
            &&& after == CycleRun::Ended(Ok(()))
            &&& record matches Some(line)
            &&& reports_outcome(line, spec, outcome)
        },
        _ => false,
    }
}

/// After the attempt to take a sample. Without one there is no child run.
pub fn after_collect(collected: Result<Metrics, MetricsError>) -> (turn: (
    CycleRun,
    Option<CycleRecord>,
))
    ensures
        forall|cfg: Config| #[trigger]
            cycle_step(cfg, CycleRun::Collect, CycleEvent::Collected(collected), turn.0, turn.1),
{
    match collected {
        Ok(sample) => {
            let record = CycleRecord::Metrics {
                utc: sample.utc_string(),
                rss_bytes: sample.rss_bytes,
            };
            (CycleRun::SecureLog { sample }, Some(record))
        },
        Err(err) => (CycleRun::Ended(Err(CycleError::Collecting(err))), None),
    }
}

/// After the attempt to secure the child log. The child only runs behind a locked log.
pub fn after_secure(
    cfg: &Config,
    sample: Metrics,
    secured: Result<(), PlatformError>,
) -> (run: CycleRun)
    ensures
        cycle_step(
            *cfg,
            CycleRun::SecureLog { sample },
            CycleEvent::Secured(secured),
            run,
            None,
        ),
{
    match secured {
        Ok(_) => CycleRun::RunChild {
            spec: ChildSpec { program: cfg.child_path.clone(), timeout: cfg.child_timeout },
            args: build_args(&sample, &cfg.child_log),
        },
        Err(source) => CycleRun::Ended(
            Err(CycleError::Securing { path: paths::display(&cfg.child_log), source }),
        ),
    }
}

/// After the child invocation: whatever came of it is logged, and the cycle has succeeded.
pub fn after_child(spec: ChildSpec, outcome: ChildOutcome) -> (turn: (
    CycleRun,
    Option<CycleRecord>,
))
    ensures
        forall|cfg: Config, args: Vec<ChildArg>| #[trigger]
            cycle_step(
                cfg,
                CycleRun::RunChild { spec, args },
                CycleEvent::ChildEnded(outcome),
                turn.0,
                turn.1,
            ),
        turn.0 == CycleRun::Ended(Ok(())),
        turn.1 matches Some(line) && reports_outcome(line, spec, outcome),
{
    (CycleRun::Ended(Ok(())), Some(outcome_record(&spec, outcome)))
}

/// The line that reports how the invocation of a child ended.
pub fn outcome_record(spec: &ChildSpec, outcome: ChildOutcome) -> (record: CycleRecord)
    ensures
        reports_outcome(record, *spec, outcome),
{
    match outcome {
        ChildOutcome::Completed { code, stdout, stderr } => {
            if code == Some(0i32) {
                CycleRecord::Completed { child_stdout: stdout }
            } else {
                CycleRecord::Failed { code, stdout, stderr }
            }
        },
        ChildOutcome::TimedOut => CycleRecord::TimedOut { timeout_secs: spec.timeout.secs },
        ChildOutcome::Cancelled => CycleRecord::Cancelled,
        ChildOutcome::SpawnFailed(err) => CycleRecord::SpawnFailed {
            path: paths::display(&spec.program),
            error: err.message,
        },
        ChildOutcome::WaitFailed(err) => CycleRecord::WaitFailed { error: err.message },
        ChildOutcome::BindFailed(err) => CycleRecord::BindFailed { error: err.message() },
    }
}

/// `runs` are the places that a cycle passes through as `events` are reported, and `records`
/// what it logs at each of them.
pub open spec fn is_cycle_trace(
    cfg: Config,
    runs: Seq<CycleRun>,
    events: Seq<CycleEvent>,
    records: Seq<Option<CycleRecord>>,
) -> bool {
    &&& runs.len() == events.len() + 1
    &&& records.len() == events.len()
    &&& runs[0] is Collect
    &&& forall|i: int|
        0 <= i < events.len() ==> cycle_step(
            cfg,
            runs[i],
            #[trigger] events[i],
            runs[i + 1],
            records[i],
        )
}

impl CycleEvent {
    /// A sample was taken.
    pub open spec fn is_sample(self, sample: Metrics) -> bool {
        self == CycleEvent::Collected(Ok(sample))
    }

    /// The child log was secured.
    pub open spec fn is_lock(self) -> bool {
        self matches CycleEvent::Secured(Ok(_))
    }
}

/// The part of a cycle's trace that leads up to where it stands.
pub open spec fn cycle_path(run: CycleRun, events: Seq<CycleEvent>) -> bool {
    match run {
        CycleRun::Collect => events.len() == 0,
        CycleRun::SecureLog { sample } => events.len() == 1 && events[0].is_sample(sample),
        CycleRun::RunChild { .. } => events.len() == 2 && (events[0] matches CycleEvent::Collected(
            Ok(_),
        )) && events[1].is_lock(),
        CycleRun::Ended(Ok(_)) => events.len() == 3 && events[1].is_lock() && events[2] is ChildEnded,
        CycleRun::Ended(Err(_)) => 1 <= events.len() <= 2,
    }
}

proof fn lemma_cycle_trace(
    cfg: Config,
    runs: Seq<CycleRun>,
    events: Seq<CycleEvent>,
    records: Seq<Option<CycleRecord>>,
)
    requires
        is_cycle_trace(cfg, runs, events, records),
    ensures
        cycle_path(runs.last(), events),
    decreases events.len(),
{
    if events.len() > 0 {
        let n = events.len() - 1;
        let earlier = runs.drop_last();
        let before = events.drop_last();
        let lines = records.drop_last();
        assert forall|i: int| 0 <= i < before.len() implies cycle_step(
            cfg,
            earlier[i],
            #[trigger] before[i],
            earlier[i + 1],
            lines[i],
        ) by {
            assert(before[i] == events[i]);
        }
        lemma_cycle_trace(cfg, earlier, before, lines);
        assert(cycle_step(cfg, runs[n], events[n], runs[n + 1], records[n]));
        assert(earlier.last() == runs[n]);
    }
}

/// The child log is secured in this very cycle, right before the child is run, and the child
/// gets the sample that this cycle took and logged.
pub proof fn child_runs_behind_a_locked_log(
    cfg: Config,
    runs: Seq<CycleRun>,
    events: Seq<CycleEvent>,
    records: Seq<Option<CycleRecord>>,
    spec: ChildSpec,
    args: Vec<ChildArg>,
)
    requires
        is_cycle_trace(cfg, runs, events, records),
        runs.last() == (CycleRun::RunChild { spec, args }),
    ensures
        events.len() == 2,
        events[1].is_lock(),
        spec.program == cfg.child_path,
        spec.timeout == cfg.child_timeout,
        exists|sample: Metrics| #[trigger]
            events[0].is_sample(sample) && is_child_args(args@, sample, cfg.child_log) && (
            records[0] matches Some(line) && reports_sample(line, sample)),
{
    lemma_cycle_trace(cfg, runs, events, records);
    assert(cycle_step(cfg, runs[0], events[0], runs[1], records[0]));
    assert(cycle_step(cfg, runs[1], events[1], runs[2], records[1]));
    match events[0] {
        CycleEvent::Collected(Ok(sample)) => {
            assert(events[0].is_sample(sample));
        },
        _ => {},
    }
}

/// A cycle fails exactly when collecting or securing failed; whatever happens to the child,
/// it succeeds and logs the outcome as its last line.
pub proof fn only_collecting_and_securing_fail(
    cfg: Config,
    runs: Seq<CycleRun>,
    events: Seq<CycleEvent>,
    records: Seq<Option<CycleRecord>>,
    result: Result<(), CycleError>,
)
    requires
        is_cycle_trace(cfg, runs, events, records),
        runs.last() == CycleRun::Ended(result),
    ensures
        match events.last() {
            CycleEvent::Collected(collected) => collected is Err && result is Err && events.len()
                == 1 && records.last() is None,
            CycleEvent::Secured(secured) => secured is Err && result is Err && events.len() == 2
                && records.last() is None,
            CycleEvent::ChildEnded(_) => result is Ok && events.len() == 3 && records.last() is Some,
        },
{
    lemma_cycle_trace(cfg, runs, events, records);
    let n = events.len() - 1;
    assert(cycle_step(cfg, runs[n], events[n], runs[n + 1], records[n]));
    let earlier = runs.drop_last();
    let before = events.drop_last();
    let lines = records.drop_last();
    assert forall|i: int| 0 <= i < before.len() implies cycle_step(
        cfg,
        earlier[i],
        #[trigger] before[i],
        earlier[i + 1],
        lines[i],
    ) by {
        assert(before[i] == events[i]);
    }
    lemma_cycle_trace(cfg, earlier, before, lines);
    assert(earlier.last() == runs[n]);
}

} // verus!
