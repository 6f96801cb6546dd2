//! Running `logger-child`: argument construction, bounded wait, outcome classification.
//! No shell is involved anywhere, so arguments are never interpreted.

use vstd::prelude::*;

use std::path::PathBuf;

use crate::metrics::{rfc3339_millis, Metrics};
use crate::platform::{IoError, PlatformError};
use crate::span::Span;
use crate::text::{decimal, decimal_string, trim, trimmed};

verus! {

/// Where the child is and how long it may run.
#[derive(Debug)]
pub struct ChildSpec {
    /// Absolute path of the child binary.
    pub program: PathBuf,
    /// Kill the child if it has not exited within this time.
    pub timeout: Span,
}

/// What happened to one child invocation. None of these is fatal to the agent.
#[derive(Debug)]
pub enum ChildOutcome {
    /// The child exited on its own.
    Completed {
        /// Exit code, `None` if killed by a signal.
        code: Option<i32>,
        /// Captured, trimmed stdout.
        stdout: String,
        /// Captured, trimmed stderr.
        stderr: String,
    },
    /// The child exceeded `ChildSpec::timeout` and was killed.
    TimedOut,
    /// Shutdown was requested while waiting; the child was killed.
    Cancelled,
    /// The process could not be started (missing binary, permissions, ...).
    SpawnFailed(IoError),
    /// The process started but waiting for it failed.
    WaitFailed(IoError),
    /// The process started but could not be bound to the agent's lifetime, so it was killed
    /// rather than left able to outlive the agent.
    BindFailed(PlatformError),
}

/// One argument of the child. A path is handed over as it is, whatever text it holds.
#[derive(Debug, PartialEq, Eq)]
pub enum ChildArg {
    /// A text.
    Text(String),
    /// A path.
    Path(PathBuf),
}

impl ChildArg {
    /// The argument is this text.
    pub open spec fn is_text(self, text: Seq<char>) -> bool {
        self matches ChildArg::Text(t) && t@ == text
    }
}

/// `--utc <ts> --rss-bytes <n> --log-file <path>`.
pub fn build_args(metrics: &Metrics, log_file: &PathBuf) -> (args: Vec<ChildArg>)
    ensures
        is_child_args(args@, *metrics, *log_file),
{
    let mut args: Vec<ChildArg> = Vec::new();
    args.push(ChildArg::Text("--utc".to_owned()));
    args.push(ChildArg::Text(metrics.utc_string()));
    args.push(ChildArg::Text("--rss-bytes".to_owned()));
    args.push(ChildArg::Text(decimal_string(metrics.rss_bytes)));
    args.push(ChildArg::Text("--log-file".to_owned()));
    args.push(ChildArg::Path(log_file.clone()));
    args
}

/// `args` are the three named arguments that the child takes, each flag before its value.
pub open spec fn is_child_args(args: Seq<ChildArg>, metrics: Metrics, log_file: PathBuf) -> bool {
    &&& args.len() == 6
    &&& args[0].is_text("--utc"@)
    &&& args[1].is_text(rfc3339_millis(metrics.utc.secs(), metrics.utc.nanos()))
    &&& args[2].is_text("--rss-bytes"@)
    &&& args[3].is_text(decimal(metrics.rss_bytes as nat))
    &&& args[4].is_text("--log-file"@)
    &&& args[5] == ChildArg::Path(log_file)
}

/// The text that `String::from_utf8_lossy` makes of bytes.
pub uninterp spec fn lossy_text(bytes: Seq<u8>) -> Seq<char>;

/// `String::from_utf8_lossy` decodes bytes: valid UTF-8 as what it encodes, and anything else
/// with replacement characters, which only the name `lossy_text` says.
#[verifier::external_body]
fn from_utf8_lossy(bytes: &Vec<u8>) -> (text: String)
    ensures
        text@ == lossy_text(bytes@),
        vstd::utf8::valid_utf8(bytes@) ==> text@ == vstd::utf8::decode_utf8(bytes@),
{
    String::from_utf8_lossy(bytes).into_owned()
}

/// What the child wrote, as text without the white space around it.
pub fn captured_text(bytes: &Vec<u8>) -> (text: String)
    ensures
        text@ == trimmed(lossy_text(bytes@)),
        vstd::utf8::valid_utf8(bytes@) ==> text@ == trimmed(vstd::utf8::decode_utf8(bytes@)),
{
    trim(from_utf8_lossy(bytes).as_str())
}

/// How the wait for a child ended.
#[derive(Debug)]
pub enum Waited {
    /// Shutdown was requested first.
    Cancelled,
    /// The time ran out first.
    Elapsed,
    /// Waiting failed.
    Failed(IoError),
    /// The child exited.
    Exited {
        /// Exit code, `None` if killed by a signal.
        code: Option<i32>,
        /// What it wrote to stdout.
        stdout: Vec<u8>,
        /// What it wrote to stderr.
        stderr: Vec<u8>,
    },
}

/// A child invocation, by what has to be done next.
#[derive(Debug)]
pub enum ChildRun {
    /// Start the process.
    Spawn,
    /// Bind the process to the agent's lifetime.
    Bind,
    /// Wait for its exit, at most as long as it may run and until a shutdown.
    Wait,
    /// Nothing: the invocation is over.
    Ended {
        /// The process may still be running and is to be killed now.
        kill: bool,
        /// How it went.
        outcome: ChildOutcome,
    },
}

/// What the steps of a child invocation report.
pub enum ChildEvent {
    /// The process was started, or not.
    Spawned(Result<(), IoError>),
    /// The process was bound to the agent's lifetime, or not.
    Bound(Result<(), PlatformError>),
    /// The wait ended.
    Waited(Waited),
}

/// `after` is where an invocation at `before` stands once `event` was reported.
pub open spec fn child_step(before: ChildRun, event: ChildEvent, after: ChildRun) -> bool {
    match (before, event) {
        (ChildRun::Spawn, ChildEvent::Spawned(Ok(_))) => after is Bind,
        (ChildRun::Spawn, ChildEvent::Spawned(Err(err))) => after == (ChildRun::Ended {
            kill: false,
            outcome: ChildOutcome::SpawnFailed(err),
        }),
        (ChildRun::Bind, ChildEvent::Bound(Ok(_))) => after is Wait,
        (ChildRun::Bind, ChildEvent::Bound(Err(err))) => after == (ChildRun::Ended {
            kill: true,
            outcome: ChildOutcome::BindFailed(err),
        }),
        (ChildRun::Wait, ChildEvent::Waited(waited)) => match waited {
            Waited::Cancelled => after == (ChildRun::Ended {
                kill: true,
                outcome: ChildOutcome::Cancelled,
            }),
            Waited::Elapsed => after == (ChildRun::Ended {
                kill: true,
                outcome: ChildOutcome::TimedOut,
            }),
            Waited::Failed(err) => after == (ChildRun::Ended {
                kill: true,
                outcome: ChildOutcome::WaitFailed(err),
            }),
            Waited::Exited { code, stdout, stderr } => after matches ChildRun::Ended {
                kill: false,
                outcome: ChildOutcome::Completed { code: c, stdout: out, stderr: err },
            } && c == code && out@ == trimmed(lossy_text(stdout@)) && err@ == trimmed(
                lossy_text(stderr@),
            ),
        },
        _ => false,
    }
}

/// After the attempt to start the process.
pub fn after_spawn(spawned: Result<(), IoError>) -> (run: ChildRun)
    ensures
        child_step(ChildRun::Spawn, ChildEvent::Spawned(spawned), run),
{
    match spawned {
        Ok(_) => ChildRun::Bind,
        Err(err) => ChildRun::Ended { kill: false, outcome: ChildOutcome::SpawnFailed(err) },
    }
}

/// After the attempt to bind the process to the agent's lifetime. Unbound, the child could
/// outlive a hard-killed agent; it is killed instead.
pub fn after_bind(bound: Result<(), PlatformError>) -> (run: ChildRun)
    ensures
        child_step(ChildRun::Bind, ChildEvent::Bound(bound), run),
{
    match bound {
        Ok(_) => ChildRun::Wait,
        Err(err) => ChildRun::Ended { kill: true, outcome: ChildOutcome::BindFailed(err) },
    }
}

/// After the wait.
pub fn after_wait(waited: Waited) -> (run: ChildRun)
    ensures
        child_step(ChildRun::Wait, ChildEvent::Waited(waited), run),
{
    match waited {
        Waited::Cancelled => ChildRun::Ended { kill: true, outcome: ChildOutcome::Cancelled },
        Waited::Elapsed => ChildRun::Ended { kill: true, outcome: ChildOutcome::TimedOut },
        Waited::Failed(err) => ChildRun::Ended {
            kill: true,
            outcome: ChildOutcome::WaitFailed(err),
        },
        Waited::Exited { code, stdout, stderr } => ChildRun::Ended {
            kill: false,
            outcome: ChildOutcome::Completed {
                code,
                stdout: captured_text(&stdout),
                stderr: captured_text(&stderr),
            },
        },
    }
}

/// `runs` are the places that an invocation passes through as `events` are reported.
pub open spec fn is_child_trace(runs: Seq<ChildRun>, events: Seq<ChildEvent>) -> bool {
    &&& runs.len() == events.len() + 1
    &&& runs[0] is Spawn
    &&& forall|i: int|
        0 <= i < events.len() ==> child_step(runs[i], #[trigger] events[i], runs[i + 1])
}

impl ChildEvent {
    /// The process was started.
    pub open spec fn is_start(self) -> bool {
        self matches ChildEvent::Spawned(Ok(_))
    }

    /// The process was bound to the agent's lifetime.
    pub open spec fn is_binding(self) -> bool {
        self matches ChildEvent::Bound(Ok(_))
    }

    /// The process has exited.
    pub open spec fn is_exit(self) -> bool {
        self matches ChildEvent::Waited(Waited::Exited { .. })
    }
}

/// The process is up: it was started, and nothing has reported its exit.
pub open spec fn is_alive(events: Seq<ChildEvent>) -> bool {
    &&& exists|i: int| 0 <= i < events.len() && (#[trigger] events[i]).is_start()
    &&& forall|i: int| 0 <= i < events.len() ==> !(#[trigger] events[i]).is_exit()
}

proof fn lemma_child_trace(runs: Seq<ChildRun>, events: Seq<ChildEvent>)
    requires
        is_child_trace(runs, events),
    ensures
        events.len() <= 3,
        match runs.last() {
            ChildRun::Spawn => events.len() == 0,
            ChildRun::Bind => events.len() == 1 && events[0].is_start(),
            ChildRun::Wait => events.len() == 2 && events[0].is_start()
                && events[1].is_binding(),
            ChildRun::Ended { .. } => events.len() >= 1 && child_step(
                runs[runs.len() - 2],
                events.last(),
                runs.last(),
            ) && match events.last() {
                ChildEvent::Spawned(_) => events.len() == 1,
                ChildEvent::Bound(_) => events.len() == 2 && events[0].is_start(),
                ChildEvent::Waited(_) => events.len() == 3 && events[0].is_start() && events[1].is_binding(),
            },
        },
    decreases events.len(),
{
    if events.len() > 0 {
        let n = events.len() - 1;
        let earlier = runs.drop_last();
        let before = events.drop_last();
        assert forall|i: int| 0 <= i < before.len() implies child_step(
            earlier[i],
            #[trigger] before[i],
            earlier[i + 1],
        ) by {
            assert(before[i] == events[i]);
        }
        lemma_child_trace(earlier, before);
        assert(child_step(runs[n], events[n], runs[n + 1]));
        assert(earlier.last() == runs[n]);
    }
}

/// No orphan is left: when an invocation ends, the process is to be killed exactly if it was
/// started and has not exited. So neither a timeout nor a cancellation, nor a failure to bind
/// or to wait, leaves a process behind.
pub proof fn no_orphan_is_left(
    runs: Seq<ChildRun>,
    events: Seq<ChildEvent>,
    kill: bool,
    outcome: ChildOutcome,
)
    requires
        is_child_trace(runs, events),
        runs.last() == (ChildRun::Ended { kill, outcome }),
    ensures
        kill <==> is_alive(events),
{
    lemma_child_trace(runs, events);
    let last = events.len() - 1;
    assert(child_step(runs[last], events[last], runs[last + 1]));
    if events.len() >= 2 {
        assert(events[0].is_start());
    }
}

/// A child is only waited for once it is bound to the agent's lifetime.
pub proof fn wait_is_bound(runs: Seq<ChildRun>, events: Seq<ChildEvent>)
    requires
        is_child_trace(runs, events),
        runs.last() is Wait,
    ensures
        events.len() == 2,
        events[1].is_binding(),
{
    lemma_child_trace(runs, events);
}

} // verus!
