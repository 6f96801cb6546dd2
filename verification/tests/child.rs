use std::path::PathBuf;

use flamingo_agent::child::{
    after_bind, after_spawn, after_wait, build_args, captured_text, ChildArg, ChildOutcome,
    ChildRun, Waited,
};
use flamingo_agent::metrics::{Metrics, UtcTime};
use flamingo_agent::platform::{IoError, IoErrorKind, PlatformError};

fn exited(code: Option<i32>, stdout: &[u8], stderr: &[u8]) -> Waited {
    Waited::Exited {
        code,
        stdout: stdout.to_vec(),
        stderr: stderr.to_vec(),
    }
}

fn missing() -> IoError {
    IoError {
        kind: IoErrorKind::NotFound,
        message: "No such file or directory (os error 2)".to_string(),
    }
}

fn ended(run: ChildRun) -> (bool, ChildOutcome) {
    match run {
        ChildRun::Ended { kill, outcome } => (kill, outcome),
        other => panic!("unexpected {other:?}"),
    }
}

#[test]
fn build_args_layout() {
    let m = Metrics {
        // 2026-01-02T03:04:05Z.
        utc: UtcTime::from_timestamp(1_767_323_045, 0).unwrap(),
        rss_bytes: 42,
    };
    let got: Vec<String> = build_args(&m, &PathBuf::from("/logs/child.log"))
        .into_iter()
        .map(|arg| match arg {
            ChildArg::Text(text) => text,
            ChildArg::Path(path) => path.display().to_string(),
        })
        .collect();
    assert_eq!(
        got,
        [
            "--utc",
            "2026-01-02T03:04:05.000Z",
            "--rss-bytes",
            "42",
            "--log-file",
            "/logs/child.log"
        ]
    );
}

#[test]
fn completed_child_reports_stdout() {
    assert!(matches!(after_spawn(Ok(())), ChildRun::Bind));
    assert!(matches!(after_bind(Ok(())), ChildRun::Wait));
    let (kill, outcome) = ended(after_wait(exited(
        Some(0),
        b"--utc T --rss-bytes 1\n",
        b"",
    )));
    assert!(!kill);
    match outcome {
        ChildOutcome::Completed { code, stdout, .. } => {
            assert_eq!(code, Some(0));
            assert!(stdout.contains("--utc T --rss-bytes 1"), "{stdout}");
        }
        other => panic!("unexpected outcome {other:?}"),
    }
}

#[test]
fn nonzero_exit_reports_code_and_stderr() {
    let (kill, outcome) = ended(after_wait(exited(Some(3), b"", b"boom\n")));
    assert!(!kill);
    match outcome {
        ChildOutcome::Completed { code, stderr, .. } => {
            assert_eq!(code, Some(3));
            assert!(stderr.contains("boom"), "{stderr}");
        }
        other => panic!("unexpected outcome {other:?}"),
    }
}

#[test]
fn slow_child_times_out_and_is_killed() {
    let (kill, outcome) = ended(after_wait(Waited::Elapsed));
    assert!(matches!(outcome, ChildOutcome::TimedOut), "{outcome:?}");
    assert!(kill);
}

#[test]
fn missing_binary_is_spawn_failed() {
    let (kill, outcome) = ended(after_spawn(Err(missing())));
    assert!(
        matches!(outcome, ChildOutcome::SpawnFailed(_)),
        "{outcome:?}"
    );
    assert!(!kill);
}

#[test]
fn cancellation_interrupts_the_wait() {
    let (kill, outcome) = ended(after_wait(Waited::Cancelled));
    assert!(matches!(outcome, ChildOutcome::Cancelled), "{outcome:?}");
    assert!(kill);
}

#[test]
fn an_unbound_child_is_killed() {
    let (kill, outcome) = ended(after_bind(Err(PlatformError::Os {
        call: "AssignProcessToJobObject",
        code: 5,
    })));
    assert!(kill);
    assert!(matches!(outcome, ChildOutcome::BindFailed(_)));
    let (kill, outcome) = ended(after_wait(Waited::Failed(missing())));
    assert!(kill);
    assert!(matches!(outcome, ChildOutcome::WaitFailed(_)));
}

#[test]
fn captured_output_is_decoded_and_trimmed() {
    assert_eq!(captured_text(&b"  line \r\n".to_vec()), "line");
    assert_eq!(
        captured_text(&"\u{3000}gr\u{fc}n\u{a0}".as_bytes().to_vec()),
        "gr\u{fc}n"
    );
    assert_eq!(captured_text(&vec![b'a', 0xff, b'b', b'\n']), "a\u{fffd}b");
    assert_eq!(captured_text(&Vec::new()), "");
}
