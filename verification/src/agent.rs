//! The tick loop: fixed period, at most one cycle in flight, and each cycle isolated in its
//! own task so neither an error nor a panic stops the loop.

use vstd::prelude::*;

use crate::cycle::{cycle_error_text, CycleError};
use crate::logging::Level;
use crate::span::Span;

verus! {

/// How a cycle's task ended.
#[derive(Debug, PartialEq, Eq)]
pub enum CycleEnd {
    /// It succeeded.
    Succeeded,
    /// It returned an error, with this text.
    Failed(String),
    /// It panicked, with this text.
    Panicked(String),
}

impl CycleEnd {
    /// How a cycle that returned `result` ended.
    pub fn returned(result: Result<(), CycleError>) -> (end: CycleEnd)
        ensures
            match result {
                Ok(_) => end is Succeeded,
                Err(err) => end matches CycleEnd::Failed(text) && text@ == cycle_error_text(err),
            },
    {
        match result {
            Ok(_) => CycleEnd::Succeeded,
            Err(err) => CycleEnd::Failed(err.message()),
        }
    }
}

/// What ended the wait between two cycles.
#[derive(Debug, Clone, Copy, PartialEq, Eq, Structural)]
pub enum Woken {
    /// A shutdown was requested.
    Cancelled,
    /// The period has passed; at the start, immediately.
    Ticked,
}

/// A line that the loop writes to the agent log.
#[derive(Debug, PartialEq, Eq)]
pub enum LoopRecord {
    /// The loop has started.
    Started {
        /// The time between cycles.
        period: Span,
    },
    /// A cycle returned an error.
    CycleFailed {
        /// The error's text.
        error: String,
    },
    /// A cycle panicked.
    CyclePanicked {
        /// The panic's text.
        error: String,
    },
    /// The loop has stopped.
    Stopped,
}

/// The level of a record.
pub open spec fn loop_record_level(record: LoopRecord) -> Level {
    match record {
        LoopRecord::Started { .. } => Level::Info,
        LoopRecord::Stopped => Level::Info,
        LoopRecord::CycleFailed { .. } => Level::Error,
        LoopRecord::CyclePanicked { .. } => Level::Error,
    }
}

/// The message of a record.
pub open spec fn loop_record_message(record: LoopRecord) -> Seq<char> {
    match record {
        LoopRecord::Started { .. } => "agent loop started"@,
        LoopRecord::CycleFailed { .. } => "cycle failed"@,
        LoopRecord::CyclePanicked { .. } => "cycle panicked; continuing"@,
        LoopRecord::Stopped => "agent loop stopped"@,
    }
}

impl LoopRecord {
    /// The level at which the record is logged.
    pub fn level(&self) -> (level: Level)
        ensures
            level == loop_record_level(*self),
    {
        match self {
            LoopRecord::Started { .. } => Level::Info,
            LoopRecord::Stopped => Level::Info,
            LoopRecord::CycleFailed { .. } => Level::Error,
            LoopRecord::CyclePanicked { .. } => Level::Error,
        }
    }

    /// The message of the record, without its fields.
    pub fn message(&self) -> (message: &'static str)
        ensures
            message@ == loop_record_message(*self),
    {
        match self {
            LoopRecord::Started { .. } => "agent loop started",
            LoopRecord::CycleFailed { .. } => "cycle failed",
            LoopRecord::CyclePanicked { .. } => "cycle panicked; continuing",
            LoopRecord::Stopped => "agent loop stopped",
        }
    }
}

/// The loop, by what has to be done next.
#[derive(Debug, Clone, Copy, PartialEq, Eq, Structural)]
pub enum LoopRun {
    /// Wait for the next tick or for a shutdown, whichever comes first.
    Wait,
    /// Run one cycle as a task of its own and wait for its end. A shutdown is not looked for
    /// meanwhile.
    RunCycle,
    /// Nothing: the loop is over.
    Ended,
}

/// What the steps of the loop report.
pub enum LoopEvent {
    /// The wait between two cycles ended.
    Woke(Woken),
    /// A cycle's task ended.
    CycleEnded(CycleEnd),
}

/// `after` is where a loop at `before` stands once `event` was reported, and `record` the
/// line that it logs on the way.
pub open spec fn loop_step(
    before: LoopRun,
    event: LoopEvent,
    after: LoopRun,
    record: Option<LoopRecord>,
) -> bool {
    match (before, event) {
        (LoopRun::Wait, LoopEvent::Woke(Woken::Cancelled)) => after is Ended && record == Some(
            LoopRecord::Stopped,
        ),
        (LoopRun::Wait, LoopEvent::Woke(Woken::Ticked)) => after is RunCycle && record is None,
        (LoopRun::RunCycle, LoopEvent::CycleEnded(end)) => after is Wait && record == (match end {
            CycleEnd::Succeeded => None,
            CycleEnd::Failed(error) => Some(LoopRecord::CycleFailed { error }),
            CycleEnd::Panicked(error) => Some(LoopRecord::CyclePanicked { error }),
        }),
        _ => false,
    }
}

/// Start a loop that runs a cycle every `period`. The first cycle runs immediately.
pub fn start_loop(period: Span) -> (turn: (LoopRun, LoopRecord))
    ensures
        turn.0 is Wait,
        turn.1 == (LoopRecord::Started { period }),
{
    (LoopRun::Wait, LoopRecord::Started { period })
}

/// After the wait between two cycles.
pub fn after_wake(woken: Woken) -> (turn: (LoopRun, Option<LoopRecord>))
    ensures
        loop_step(LoopRun::Wait, LoopEvent::Woke(woken), turn.0, turn.1),
{
    match woken {
        Woken::Cancelled => (LoopRun::Ended, Some(LoopRecord::Stopped)),
        Woken::Ticked => (LoopRun::RunCycle, None),
    }
}

/// After a cycle: an error or a panic is logged, and the next tick still runs.
pub fn after_cycle(end: CycleEnd) -> (turn: (LoopRun, Option<LoopRecord>))
    ensures
        loop_step(LoopRun::RunCycle, LoopEvent::CycleEnded(end), turn.0, turn.1),
{
    let record = match end {
        CycleEnd::Succeeded => None,
        CycleEnd::Failed(error) => Some(LoopRecord::CycleFailed { error }),
        CycleEnd::Panicked(error) => Some(LoopRecord::CyclePanicked { error }),
    };
    (LoopRun::Wait, record)
}

/// `runs` are the places that a loop passes through as `events` are reported, and `records`
/// what it logs at each of them.
pub open spec fn is_loop_trace(
    runs: Seq<LoopRun>,
    events: Seq<LoopEvent>,
    records: Seq<Option<LoopRecord>>,
) -> bool {
    &&& runs.len() == events.len() + 1
    &&& records.len() == events.len()
    &&& runs[0] is Wait
    &&& forall|i: int|
        0 <= i < events.len() ==> loop_step(runs[i], #[trigger] events[i], runs[i + 1], records[i])
}

/// How many ticks were reported.
pub open spec fn ticks(events: Seq<LoopEvent>) -> nat
    decreases events.len(),
{
    if events.len() == 0 {
        0
    } else {
        ticks(events.drop_last()) + if events.last() == LoopEvent::Woke(Woken::Ticked) {
            1nat
        } else {
            0nat
        }
    }
}

/// How many cycles were reported to have ended.
pub open spec fn ended_cycles(events: Seq<LoopEvent>) -> nat
    decreases events.len(),
{
    if events.len() == 0 {
        0
    } else {
        ended_cycles(events.drop_last()) + if events.last() is CycleEnded {
            1nat
        } else {
            0nat
        }
    }
}

/// How many cycles are in flight.
pub open spec fn in_flight(events: Seq<LoopEvent>) -> int {
    ticks(events) - ended_cycles(events)
}

/// At most one cycle is ever in flight: one while the loop awaits a cycle, none at any other
/// time.
pub proof fn at_most_one_cycle_is_in_flight(
    runs: Seq<LoopRun>,
    events: Seq<LoopEvent>,
    records: Seq<Option<LoopRecord>>,
)
    requires
        is_loop_trace(runs, events, records),
    ensures
        in_flight(events) == if runs.last() is RunCycle {
            1int
        } else {
            0int
        },
    decreases events.len(),
{
    if events.len() > 0 {
        let n = events.len() - 1;
        let earlier = runs.drop_last();
        let before = events.drop_last();
        let lines = records.drop_last();
        assert forall|i: int| 0 <= i < before.len() implies loop_step(
            earlier[i],
            #[trigger] before[i],
            earlier[i + 1],
            lines[i],
        ) by {
            assert(before[i] == events[i]);
        }
        at_most_one_cycle_is_in_flight(earlier, before, lines);
        assert(loop_step(runs[n], events[n], runs[n + 1], records[n]));
        assert(earlier.last() == runs[n]);
    }
}

/// Only a cancellation that is observed between two cycles stops the loop: neither an error
/// nor a panic of a cycle does, and no cycle is in flight at the end.
pub proof fn only_cancellation_stops_the_loop(
    runs: Seq<LoopRun>,
    events: Seq<LoopEvent>,
    records: Seq<Option<LoopRecord>>,
    at: int,
)
    requires
        is_loop_trace(runs, events, records),
        0 <= at < events.len(),
    ensures
        runs[at + 1] is Ended <==> events[at] == LoopEvent::Woke(Woken::Cancelled),
        runs[at + 1] is Ended ==> at == events.len() - 1 && in_flight(events) == 0,
        events[at] is CycleEnded ==> runs[at + 1] is Wait,
{
    assert(loop_step(runs[at], events[at], runs[at + 1], records[at]));
    if runs[at + 1] is Ended {
        if at + 1 < events.len() {
            assert(loop_step(runs[at + 1], events[at + 1], runs[at + 2], records[at + 1]));
        }
        at_most_one_cycle_is_in_flight(runs, events, records);
    }
}

/// Every failed and every panicked cycle leaves a line in the log, and a good one none.
pub proof fn failures_are_logged(
    runs: Seq<LoopRun>,
    events: Seq<LoopEvent>,
    records: Seq<Option<LoopRecord>>,
    at: int,
)
    requires
        is_loop_trace(runs, events, records),
        0 <= at < events.len(),
    ensures
        match events[at] {
            LoopEvent::CycleEnded(CycleEnd::Failed(error)) => records[at] == Some(
                LoopRecord::CycleFailed { error },
            ),
            LoopEvent::CycleEnded(CycleEnd::Panicked(error)) => records[at] == Some(
                LoopRecord::CyclePanicked { error },
            ),
            LoopEvent::CycleEnded(CycleEnd::Succeeded) => records[at] is None,
            LoopEvent::Woke(_) => true,
        },
{
    assert(loop_step(runs[at], events[at], runs[at + 1], records[at]));
}

} // verus!
