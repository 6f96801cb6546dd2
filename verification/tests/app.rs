use std::path::PathBuf;

use flamingo_agent::app::{
    after_check, after_describe, after_hook, after_lock, after_logging, after_loop, after_relaunch, after_run, after_runtime, after_secure_child_log,
    after_secure_dir, exit_code_for_relaunch, install_verdict, interactive_outcome,
    relaunch_outcome, relaunch_report, require_privilege, resolve_config, run_plan,
    uninstall_verdict, AgentError, AgentRecord, AgentRun, Privilege, RunPlan, ShellRun, EXIT_ALREADY_RUNNING,
    EXIT_FAILURE, EXIT_OK, EXIT_PRIVILEGE, EXIT_UNSUPPORTED, RELAUNCH_FAILED,
};
use flamingo_agent::cli::{Cli, Options};
use flamingo_agent::config::{Config, ConfigError};
use flamingo_agent::logging::{Level, LoggingError};
use flamingo_agent::platform::{IoError, IoErrorKind, PlatformError};
use flamingo_agent::service::{ApiError, Dispatch, ServiceError};

fn cli(period_secs: u64, child_timeout_secs: u64) -> Cli {
    Cli::from_options(Options {
        install: false,
        uninstall: false,
        period_secs: Some(period_secs),
        child_timeout_secs: Some(child_timeout_secs),
        child_path: Some(PathBuf::from("/opt/echo_args")),
        log_dir: Some(PathBuf::from("/logs")),
        log_level: None,
    })
    .unwrap()
}

fn config() -> Config {
    resolve_config(
        &cli(2, 1),
        Ok(PathBuf::from("/opt/flamingo-agent")),
        PathBuf::from("/var/log/flamingo-agent"),
        "logger-child",
    )
    .unwrap()
}

fn io(message: &str) -> IoError {
    IoError {
        kind: IoErrorKind::Other,
        message: message.to_string(),
    }
}

#[test]
fn relaunch_exit_code_mapping() {
    // The elevated run's own exit code is passed through when it fits in a u8.
    assert_eq!(exit_code_for_relaunch(Ok(0)), (EXIT_OK, None));
    assert_eq!(exit_code_for_relaunch(Ok(7)), (7, None));
    assert_eq!(exit_code_for_relaunch(Ok(255)), (255, None));
    // Codes we cannot report through our own exit status become a plain failure.
    assert_eq!(exit_code_for_relaunch(Ok(256)), (EXIT_FAILURE, None));
    assert_eq!(exit_code_for_relaunch(Ok(-1)), (EXIT_FAILURE, None));

    let (code, message) = exit_code_for_relaunch(Err(PlatformError::ElevationDeclined));
    assert_eq!(code, EXIT_PRIVILEGE);
    assert!(
        message.unwrap_or_default().contains("declined"),
        "{message:?}"
    );

    let (code, message) = exit_code_for_relaunch(Err(PlatformError::ElevationBlockedByPolicy));
    assert_eq!(code, EXIT_PRIVILEGE);
    assert!(
        message.unwrap_or_default().contains("blocked by policy"),
        "{message:?}"
    );

    let (code, message) = exit_code_for_relaunch(Err(PlatformError::Unsupported("self-elevation")));
    assert_eq!(code, EXIT_PRIVILEGE);
    assert!(message.unwrap_or_default().contains("sudo"), "{message:?}");

    let (code, message) = exit_code_for_relaunch(Err(PlatformError::Os {
        call: "ShellExecuteExW",
        code: 5,
    }));
    assert_eq!(code, EXIT_FAILURE);
    assert_eq!(message, Some(RELAUNCH_FAILED));
}

#[test]
fn relaunch_report_appends_detail_only_to_the_uninterpreted_failure() {
    assert_eq!(
        relaunch_report(Some(RELAUNCH_FAILED), Some("ShellExecuteExW failed".into())),
        Some(format!("{RELAUNCH_FAILED}: ShellExecuteExW failed"))
    );
    assert_eq!(
        relaunch_report(
            Some("administrator approval was declined"),
            Some("x".into())
        ),
        Some("administrator approval was declined".to_string())
    );
    assert_eq!(
        relaunch_report(Some(RELAUNCH_FAILED), None),
        Some(RELAUNCH_FAILED.to_string())
    );
    assert_eq!(relaunch_report(None, Some("x".into())), None);
}

#[test]
fn a_whole_relaunch_is_explained_once() {
    assert_eq!(relaunch_outcome(Ok(7)), (7, None));
    assert_eq!(
        relaunch_outcome(Err(PlatformError::Os {
            call: "ShellExecuteExW",
            code: 5
        })),
        (
            EXIT_FAILURE,
            Some(
                "could not relaunch with elevation: ShellExecuteExW failed with OS error 5"
                    .to_string()
            )
        )
    );
    assert_eq!(
        relaunch_outcome(Err(PlatformError::ElevationBlockedByPolicy)),
        (
            EXIT_PRIVILEGE,
            Some(
                "elevation is blocked by policy for this account; run from an administrator account"
                    .to_string()
            )
        )
    );
}

#[test]
fn unprivileged_run_explains_sudo_and_exits_3() {
    assert_eq!(require_privilege(Ok(false)), Privilege::Relaunch);
    let (code, line) = relaunch_outcome(flamingo_agent::platform::unix::relaunch_privileged(&[]));
    assert_eq!(code, 3);
    assert!(line.unwrap().contains("sudo"));
}

#[test]
fn privilege_is_granted_or_its_lack_explained() {
    assert_eq!(require_privilege(Ok(true)), Privilege::Granted);
    assert_eq!(
        require_privilege(Err(PlatformError::Os {
            call: "OpenProcessToken",
            code: 5
        })),
        Privilege::Unknown {
            code: EXIT_FAILURE,
            line:
                "cannot determine privilege level: OpenProcessToken failed with OS error 5"
                    .to_string(),
        }
    );
}

#[test]
fn resolve_config_rejects_timeout_not_below_period() {
    let err = resolve_config(
        &cli(4, 4),
        Ok(PathBuf::from("/opt/flamingo-agent")),
        PathBuf::from("/var/log/flamingo-agent"),
        "logger-child",
    )
    .unwrap_err();
    assert!(err.message().contains("must be shorter"), "{}", err.message());
}

#[test]
fn resolve_config_needs_the_executable() {
    let err = resolve_config(&cli(2, 1), Err(io("gone")), PathBuf::from("/l"), "c").unwrap_err();
    assert_eq!(err.message(), "locating own executable: gone");
}

#[test]
fn bootstrap_runs_cycles_and_stops_on_cancel() {
    let cfg = config();
    assert!(matches!(
        after_secure_dir(&cfg, Ok(())),
        AgentRun::AcquireLock
    ));
    assert!(matches!(after_lock(Ok(())), AgentRun::InitLogging));
    assert!(matches!(
        after_logging(Ok(())),
        AgentRun::SecureChildLog
    ));
    let (run, record) = after_secure_child_log(&cfg, Ok(()));
    assert!(matches!(run, AgentRun::DescribeChildLog));
    assert!(record.is_none());
    let (run, record) = after_describe(&cfg, false, Ok("mode=0600 uid=0 gid=0".to_string()));
    assert!(matches!(run, AgentRun::BuildRuntime));
    let record = record.unwrap();
    assert_eq!(record.message(), "flamingo-agent starting");
    assert_eq!(record.level(), Level::Info);
    assert_eq!(
        record,
        AgentRecord::Starting {
            mode: "service",
            child: "/opt/echo_args".to_string(),
            child_log: "/logs/child.log".to_string(),
            protection: "mode=0600 uid=0 gid=0".to_string(),
            period_secs: 2,
            child_timeout_secs: 1,
        }
    );
    assert!(matches!(after_runtime(Ok(())), AgentRun::RunLoop));
    let (run, record) = after_loop();
    assert!(matches!(run, AgentRun::Ended(Ok(()))));
    assert_eq!(record.unwrap().message(), "flamingo-agent stopped");
}

#[test]
fn an_interactive_run_says_so() {
    let (_, record) = after_describe(&config(), true, Ok(String::new()));
    assert!(matches!(
        record,
        Some(AgentRecord::Starting {
            mode: "interactive",
            ..
        })
    ));
}

fn failure(run: AgentRun) -> AgentError {
    match run {
        AgentRun::Ended(Err(err)) => err,
        other => panic!("unexpected {other:?}"),
    }
}

#[test]
fn every_bootstrap_failure_has_its_own_message() {
    let cfg = config();
    let source = || PlatformError::Io {
        context: "creating log directory",
        source: io("denied"),
    };
    assert_eq!(
        failure(after_secure_dir(&cfg, Err(source()))).message(),
        "securing log directory /logs: creating log directory: denied: denied"
    );
    assert_eq!(
        failure(after_lock(Err(source()))).message(),
        "acquiring the instance lock: creating log directory: denied: denied"
    );
    assert_eq!(
        failure(after_logging(
            Err(LoggingError::Filter("[x".to_string()))
        ))
        .message(),
        "initialising logging: invalid log level \"[x\""
    );
    let (run, record) = after_secure_child_log(&cfg, Err(source()));
    let text = "securing child log /logs/child.log: creating log directory: denied: denied";
    assert_eq!(failure(run).message(), text);
    let record = record.unwrap();
    assert_eq!(record.level(), Level::Error);
    assert_eq!(record.message(), "bootstrap failed");
    assert_eq!(
        record,
        AgentRecord::BootstrapFailed {
            error: text.to_string()
        }
    );
    let (run, record) = after_describe(&cfg, true, Err(source()));
    assert_eq!(
        failure(run).message(),
        "reading child log protection: creating log directory: denied: denied"
    );
    assert!(matches!(record, Some(AgentRecord::BootstrapFailed { .. })));
    assert_eq!(
        failure(after_runtime(Err(io("no threads")))).message(),
        "building async runtime: no threads"
    );
}

#[test]
fn second_agent_on_the_same_log_directory_exits_5() {
    let run = after_lock(
        Err(PlatformError::AlreadyRunning {
            path: "/logs/agent.lock".to_string(),
        }),
    );
    let (code, line) = interactive_outcome(Err(failure(run)));
    assert_eq!(code, 5);
    assert_eq!(code, EXIT_ALREADY_RUNNING);
    assert!(line.unwrap().contains("already holds the lock"));
}

#[test]
fn an_interactive_run_ends_with_its_exit_code() {
    assert_eq!(interactive_outcome(Ok(())), (EXIT_OK, None));
    let (code, line) = interactive_outcome(Err(AgentError::Config(
        ConfigError::TimeoutNotBelowPeriod {
            timeout: 4,
            period: 4,
        },
    )));
    assert_eq!(code, EXIT_FAILURE);
    assert_eq!(
        line.unwrap(),
        "child timeout (4s) must be shorter than the period (4s)"
    );
}

#[test]
fn install_is_unsupported_off_windows() {
    let exe = PathBuf::from("/opt/flamingo-agent");
    let verdict = install_verdict(flamingo_agent::service::unsupported::install(&exe));
    assert_eq!(verdict.code, 4);
    assert_eq!(verdict.code, EXIT_UNSUPPORTED);
    assert!(verdict.stdout.is_none());
    assert!(verdict.stderr.unwrap().contains("not supported"));
}

#[test]
fn management_commands_report_what_they_did() {
    let verdict = install_verdict(Ok(()));
    assert_eq!(
        (verdict.code, verdict.stdout.as_deref()),
        (EXIT_OK, Some("FlamingoAgent installed and running"))
    );
    let verdict = uninstall_verdict(Ok(()));
    assert_eq!(
        (verdict.code, verdict.stdout.as_deref()),
        (EXIT_OK, Some("FlamingoAgent removed"))
    );
    let verdict = uninstall_verdict(Err(ServiceError::NotInstalled));
    assert_eq!(verdict.code, EXIT_FAILURE);
    assert_eq!(
        verdict.stderr.as_deref(),
        Some("FlamingoAgent is not installed")
    );
}

#[test]
fn missing_rights_come_with_advice() {
    let denied = || ApiError {
        code: Some(5),
        message: "IO error in winapi call".to_string(),
        cause: Some("Access is denied. (os error 5)".to_string()),
    };
    let verdict = install_verdict(Err(ServiceError::Api(denied())));
    assert_eq!(verdict.code, EXIT_FAILURE);
    assert_eq!(
        verdict.stderr.as_deref(),
        Some(
            "service control manager: IO error in winapi call: IO error in winapi call: \
             Access is denied. (os error 5); run as administrator"
        )
    );
    let verdict = uninstall_verdict(Err(ServiceError::StopFailed { source: denied() }));
    assert_eq!(verdict.code, EXIT_FAILURE);
    assert!(verdict.stderr.unwrap().ends_with("; run as administrator"));
    let other = ApiError {
        code: Some(1053),
        ..denied()
    };
    let verdict = uninstall_verdict(Err(ServiceError::Api(other)));
    assert!(!verdict.stderr.unwrap().contains("administrator"));
    let verdict = install_verdict(Err(ServiceError::MarkedForDelete));
    assert!(!verdict.stderr.unwrap().contains("administrator"));
}

#[test]
fn a_bare_invocation_follows_the_dispatcher() {
    assert_eq!(run_plan(Ok(Dispatch::RanAsService)), RunPlan::Exit(EXIT_OK));
    assert_eq!(
        run_plan(flamingo_agent::service::unsupported::run_dispatcher()),
        RunPlan::Interactive
    );
    assert_eq!(
        run_plan(Err(ServiceError::MarkedForDelete)),
        RunPlan::Fail {
            code: EXIT_FAILURE,
            line: "service dispatcher failed: FlamingoAgent is marked for deletion; \
                   close the Services console and try again"
                .to_string(),
        }
    );
}

#[test]
fn a_shell_run_checks_privilege_first() {
    assert!(matches!(after_check(Ok(true)), ShellRun::InstallHandler));
    assert!(matches!(after_check(Ok(false)), ShellRun::Relaunch));
    let denied = PlatformError::Os {
        call: "OpenProcessToken",
        code: 5,
    };
    match after_check(Err(denied)) {
        ShellRun::Exit { code, line } => {
            assert_eq!(code, EXIT_FAILURE);
            assert_eq!(
                line.unwrap(),
                "cannot determine privilege level: OpenProcessToken failed with OS error 5"
            );
        }
        other => panic!("unexpected {other:?}"),
    }
    assert!(matches!(
        after_relaunch(Ok(7)),
        ShellRun::Exit {
            code: 7,
            line: None
        }
    ));
}

#[test]
fn a_shell_run_needs_its_ctrl_c_handler() {
    assert!(matches!(after_hook(Ok(())), ShellRun::RunAgent));
    match after_hook(Err("already set".to_string())) {
        ShellRun::Exit { code, line } => {
            assert_eq!(code, EXIT_FAILURE);
            assert_eq!(
                line.unwrap(),
                "cannot install Ctrl-C handler: already set"
            );
        }
        other => panic!("unexpected {other:?}"),
    }
    assert!(matches!(
        after_run(Ok(())),
        ShellRun::Exit {
            code: EXIT_OK,
            line: None
        }
    ));
}
