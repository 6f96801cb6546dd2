use std::path::PathBuf;

use flamingo_agent::child::{ChildArg, ChildOutcome, ChildSpec};
use flamingo_agent::config::Config;
use flamingo_agent::cycle::{
    after_child, after_collect, after_secure, CycleError, CycleRecord, CycleRun,
};
use flamingo_agent::logging::Level;
use flamingo_agent::metrics::{Metrics, MetricsError, UtcTime};
use flamingo_agent::platform::{IoError, IoErrorKind, PlatformError};
use flamingo_agent::span::Span;

fn config(child: &str) -> Config {
    Config {
        period: Span::from_secs(5),
        child_timeout: Span::from_secs(4),
        child_path: PathBuf::from(child),
        log_dir: PathBuf::from("/logs"),
        agent_log: PathBuf::from("/logs/agent.log"),
        child_log: PathBuf::from("/logs/child.log"),
        log_level: "info".into(),
    }
}

fn sample() -> Metrics {
    Metrics {
        utc: UtcTime::from_timestamp(1_767_323_045, 6_000_000).unwrap(),
        rss_bytes: 8_421_376,
    }
}

fn io(message: &str) -> IoError {
    IoError {
        kind: IoErrorKind::NotFound,
        message: message.to_string(),
    }
}

/// Run a whole cycle whose child ends with `outcome`.
fn run(cfg: &Config, outcome: ChildOutcome) -> (Vec<CycleRecord>, Result<(), CycleError>) {
    let mut records = Vec::new();
    let (state, record) = after_collect(Ok(sample()));
    records.extend(record);
    let sample = match state {
        CycleRun::SecureLog { sample } => sample,
        other => panic!("unexpected {other:?}"),
    };
    let spec = match after_secure(cfg, sample, Ok(())) {
        CycleRun::RunChild { spec, .. } => spec,
        other => panic!("unexpected {other:?}"),
    };
    let (state, record) = after_child(spec, outcome);
    records.extend(record);
    match state {
        CycleRun::Ended(result) => (records, result),
        other => panic!("unexpected {other:?}"),
    }
}

#[test]
fn cycle_secures_the_child_log_and_runs_the_child() {
    let cfg = config("/opt/echo_args");
    let (state, record) = after_collect(Ok(sample()));
    let record = record.unwrap();
    assert_eq!(record.message(), "metrics");
    assert_eq!(record.level(), Level::Info);
    assert_eq!(
        record,
        CycleRecord::Metrics {
            utc: "2026-01-02T03:04:05.006Z".to_string(),
            rss_bytes: 8_421_376,
        }
    );
    assert!(matches!(state, CycleRun::SecureLog { .. }));
    match after_secure(&cfg, sample(), Ok(())) {
        CycleRun::RunChild { spec, args } => {
            assert_eq!(spec.program, PathBuf::from("/opt/echo_args"));
            assert_eq!(spec.timeout, Span::from_secs(4));
            assert_eq!(args.len(), 6);
            assert_eq!(args[3], ChildArg::Text("8421376".to_string()));
            assert_eq!(args[5], ChildArg::Path(PathBuf::from("/logs/child.log")));
        }
        other => panic!("unexpected {other:?}"),
    }
}

#[test]
fn missing_child_is_not_an_error() {
    let (records, result) = run(
        &config("/definitely/not/here"),
        ChildOutcome::SpawnFailed(io("No such file or directory (os error 2)")),
    );
    assert!(result.is_ok());
    assert_eq!(
        records[1],
        CycleRecord::SpawnFailed {
            path: "/definitely/not/here".to_string(),
            error: "No such file or directory (os error 2)".to_string(),
        }
    );
}

#[test]
fn every_child_outcome_is_logged_and_succeeds() {
    let cfg = config("/opt/child");
    let completed = |code| ChildOutcome::Completed {
        code,
        stdout: "out".to_string(),
        stderr: "err".to_string(),
    };
    let bind = PlatformError::Os {
        call: "AssignProcessToJobObject",
        code: 5,
    };
    let cases = [
        (completed(Some(0)), Level::Info, "child completed"),
        (completed(Some(3)), Level::Warn, "child exited with failure"),
        (completed(None), Level::Warn, "child exited with failure"),
        (
            ChildOutcome::TimedOut,
            Level::Error,
            "child timed out and was killed",
        ),
        (
            ChildOutcome::Cancelled,
            Level::Info,
            "child wait cancelled by shutdown",
        ),
        (
            ChildOutcome::SpawnFailed(io("x")),
            Level::Error,
            "child could not be spawned",
        ),
        (
            ChildOutcome::WaitFailed(io("x")),
            Level::Error,
            "waiting for child failed",
        ),
        (
            ChildOutcome::BindFailed(bind),
            Level::Error,
            "child could not be bound to the agent's lifetime and was killed",
        ),
    ];
    for (outcome, level, message) in cases {
        let (records, result) = run(&cfg, outcome);
        assert!(result.is_ok());
        assert_eq!(records.len(), 2);
        assert_eq!(records[1].level(), level);
        assert_eq!(records[1].message(), message);
    }
}

#[test]
fn records_carry_what_happened() {
    let cfg = config("/opt/child");
    let outcome = ChildOutcome::Completed {
        code: Some(2),
        stdout: "out".to_string(),
        stderr: "err".to_string(),
    };
    assert_eq!(
        run(&cfg, outcome).0[1],
        CycleRecord::Failed {
            code: Some(2),
            stdout: "out".to_string(),
            stderr: "err".to_string(),
        }
    );
    assert_eq!(
        run(&cfg, ChildOutcome::TimedOut).0[1],
        CycleRecord::TimedOut { timeout_secs: 4 }
    );
    let bind = PlatformError::Os {
        call: "AssignProcessToJobObject",
        code: 5,
    };
    assert_eq!(
        run(&cfg, ChildOutcome::BindFailed(bind)).0[1],
        CycleRecord::BindFailed {
            error: "AssignProcessToJobObject failed with OS error 5".to_string(),
        }
    );
}

#[test]
fn failed_collection_skips_the_child() {
    let (state, record) = after_collect(Err(MetricsError::RssUnavailable));
    assert!(record.is_none());
    match state {
        CycleRun::Ended(Err(err)) => assert_eq!(
            err.message(),
            "collecting metrics: process memory statistics are unavailable"
        ),
        other => panic!("unexpected {other:?}"),
    }
}

#[test]
fn an_unsecured_log_skips_the_child() {
    let failure = PlatformError::Untrusted {
        path: "/logs/child.log".to_string(),
        reason: "a symbolic link",
    };
    match after_secure(&config("/opt/child"), sample(), Err(failure)) {
        CycleRun::Ended(Err(err)) => assert_eq!(
            err.message(),
            "securing child log /logs/child.log: refusing to use /logs/child.log: it is a symbolic link"
        ),
        other => panic!("unexpected {other:?}"),
    }
}

#[test]
fn a_timeout_is_recorded_with_its_limit() {
    let spec = ChildSpec {
        program: PathBuf::from("/a/b"),
        timeout: Span::from_secs(1),
    };
    let record = flamingo_agent::cycle::outcome_record(&spec, ChildOutcome::TimedOut);
    assert_eq!(record, CycleRecord::TimedOut { timeout_secs: 1 });
}
