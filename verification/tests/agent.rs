use flamingo_agent::agent::{
    after_cycle, after_wake, start_loop, CycleEnd, LoopRecord, LoopRun, Woken,
};
use flamingo_agent::cycle::CycleError;
use flamingo_agent::logging::Level;
use flamingo_agent::metrics::MetricsError;
use flamingo_agent::span::Span;

/// Drive a loop in simulated time: ticks at every multiple of `period` milliseconds, and a
/// cancellation at `stop` milliseconds. Gives back how many cycles ran and what was logged.
fn run_loop(period: u64, stop: u64, cycle: fn() -> CycleEnd) -> (usize, Vec<LoopRecord>) {
    let mut cycles = 0;
    let mut now = 0;
    let (mut run, record) = start_loop(Span::from_millis(period));
    let mut records = vec![record];
    loop {
        let turn = match run {
            LoopRun::Wait => {
                if stop < now {
                    after_wake(Woken::Cancelled)
                } else {
                    after_wake(Woken::Ticked)
                }
            }
            LoopRun::RunCycle => {
                cycles += 1;
                now += period;
                after_cycle(cycle())
            }
            LoopRun::Ended => return (cycles, records),
        };
        run = turn.0;
        records.extend(turn.1);
    }
}

#[test]
fn runs_once_per_period_starting_immediately() {
    let (cycles, records) = run_loop(50, 275, || CycleEnd::Succeeded);
    assert_eq!(cycles, 6);
    assert_eq!(
        records,
        [
            LoopRecord::Started {
                period: Span::from_millis(50)
            },
            LoopRecord::Stopped
        ]
    );
}

#[test]
fn a_failing_cycle_does_not_stop_the_loop() {
    let (cycles, records) = run_loop(50, 200, || {
        CycleEnd::Failed("simulated failure".to_string())
    });
    assert!(cycles >= 3);
    let failures = records
        .iter()
        .filter(|record| {
            **record
                == LoopRecord::CycleFailed {
                    error: "simulated failure".to_string(),
                }
        })
        .count();
    assert_eq!(failures, cycles);
}

#[test]
fn a_panicking_cycle_does_not_stop_the_loop() {
    let (cycles, records) = run_loop(50, 200, || {
        CycleEnd::Panicked("simulated panic".to_string())
    });
    assert!(cycles >= 3);
    let panics = records
        .iter()
        .filter(|record| record.message() == "cycle panicked; continuing")
        .count();
    assert_eq!(panics, cycles);
}

#[test]
fn cancellation_ends_the_wait() {
    let (run, record) = after_wake(Woken::Cancelled);
    assert_eq!(run, LoopRun::Ended);
    assert_eq!(record, Some(LoopRecord::Stopped));
}

#[test]
fn a_returned_error_becomes_its_text() {
    assert_eq!(CycleEnd::returned(Ok(())), CycleEnd::Succeeded);
    assert_eq!(
        CycleEnd::returned(Err(CycleError::Collecting(MetricsError::RssUnavailable))),
        CycleEnd::Failed(
            "collecting metrics: process memory statistics are unavailable".to_string()
        )
    );
}

#[test]
fn loop_records_have_levels_and_messages() {
    let records = [
        (
            LoopRecord::Started {
                period: Span::from_secs(5),
            },
            Level::Info,
            "agent loop started",
        ),
        (
            LoopRecord::CycleFailed {
                error: String::new(),
            },
            Level::Error,
            "cycle failed",
        ),
        (
            LoopRecord::CyclePanicked {
                error: String::new(),
            },
            Level::Error,
            "cycle panicked; continuing",
        ),
        (LoopRecord::Stopped, Level::Info, "agent loop stopped"),
    ];
    for (record, level, message) in records {
        assert_eq!(record.level(), level);
        assert_eq!(record.message(), message);
    }
}
