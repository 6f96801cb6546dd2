use std::path::PathBuf;

use flamingo_agent::app::AgentError;
use flamingo_agent::config::ConfigError;
use flamingo_agent::service::eventlog::{
    after_close_key, after_create_key, after_set_value, source_key, unregister_source, value_size,
    EventKind, LogEvent, RegisterRun, SourceValue, EVENT_BAD_ARGUMENTS, EVENT_BOOTSTRAP_FAILED,
    EVENT_PANIC, EVENT_STARTED, EVENT_STOPPED,
};
use flamingo_agent::service::windows::{
    after_agent, after_await, after_await_stopped, after_call, after_connect, after_delete,
    after_open, after_parse, after_query, after_query_for_removal, after_register, after_source,
    after_starting, after_stop, after_stopped, after_stopping, after_unregister, agent_log_text,
    on_control, on_ready, panic_message, pending, recovery_policy, run_dispatcher, running,
    service_info, stopped, wait_for_state, ActionType, AgentOutcome, Awaited, Control,
    ControlsAccepted, ErrorControl, ExitCode, InstallCall, InstallRun, PanicPayload, ServiceRun,
    ServiceState, ServiceType, StartType, UninstallRun, EXIT_PANIC,
};
use flamingo_agent::service::{
    unsupported, ApiError, Dispatch, ServiceError, SERVICE_DISPLAY_NAME, SERVICE_NAME,
};
use flamingo_agent::span::Span;

fn api(code: i32) -> ApiError {
    ApiError {
        code: Some(code),
        message: "IO error in winapi call".to_string(),
        cause: Some(format!("os error {code}")),
    }
}

#[test]
fn panic_message_reads_both_payload_forms() {
    assert_eq!(
        panic_message(&PanicPayload::Static("static text")),
        "static text"
    );
    assert_eq!(
        panic_message(&PanicPayload::Owned(String::from("owned text"))),
        "owned text"
    );
    assert_eq!(
        panic_message(&PanicPayload::Other),
        "(non-string panic payload)"
    );
}

#[test]
fn recovery_policy_restarts_twice_then_gives_up() {
    let policy = recovery_policy();
    assert_eq!(policy.reset_period, Span::from_secs(86_400));
    assert!(policy.reboot_msg.is_none() && policy.command.is_none());
    let kinds: Vec<_> = policy.actions.iter().map(|a| a.action_type).collect();
    assert_eq!(
        kinds,
        [
            ActionType::Restart,
            ActionType::Restart,
            ActionType::Nothing
        ]
    );
    assert!(policy.actions[..2]
        .iter()
        .all(|a| a.delay == Span::from_secs(5)));
}

#[test]
fn status_builders_have_the_specified_shape() {
    let starting = pending(ServiceState::StartPending);
    assert_eq!(starting.service_type, ServiceType::OwnProcess);
    assert_eq!(starting.current_state, ServiceState::StartPending);
    assert_eq!(
        starting.controls_accepted,
        ControlsAccepted {
            stop: false,
            shutdown: false
        },
        "a pending service must not advertise controls: {:?}",
        starting.controls_accepted
    );
    assert_eq!(starting.wait_hint, Span::from_secs(10));
    assert_eq!(starting.checkpoint, 0);
    assert_eq!(starting.process_id, None);

    let running = running();
    assert_eq!(running.current_state, ServiceState::Running);
    assert_eq!(
        running.controls_accepted,
        ControlsAccepted {
            stop: true,
            shutdown: true
        }
    );
    assert_eq!(running.wait_hint, Span::from_secs(0));

    let stopped = stopped(ExitCode::ServiceSpecific(EXIT_PANIC));
    assert_eq!(stopped.current_state, ServiceState::Stopped);
    assert_eq!(stopped.exit_code, ExitCode::ServiceSpecific(EXIT_PANIC));
    assert_eq!(stopped.wait_hint, Span::from_secs(0));
    assert_eq!(stopped.service_type, ServiceType::OwnProcess);
}

#[test]
fn service_info_matches_the_design() {
    let exe = PathBuf::from(r"C:\Program Files\FlamingoAgent\flamingo-agent.exe");
    let info = service_info(&exe);
    assert_eq!(info.name, SERVICE_NAME);
    assert_eq!(info.display_name, SERVICE_DISPLAY_NAME);
    assert_eq!(info.service_type, ServiceType::OwnProcess);
    assert_eq!(info.start_type, StartType::AutoStart);
    assert_eq!(info.error_control, ErrorControl::Normal);
    assert_eq!(info.executable_path, exe);
    assert!(
        info.launch_arguments.is_empty(),
        "{:?}",
        info.launch_arguments
    );
    assert!(info.dependencies.is_empty(), "{:?}", info.dependencies);
    assert_eq!(info.account_name, None, "must run as LocalSystem");
    assert_eq!(info.account_password, None);
}

#[test]
fn register_and_unregister_round_trip() {
    let exe = PathBuf::from("flamingo-agent.exe");
    assert!(unregister_source(2).is_ok(), "absent key is not an error");
    let value = match after_create_key(&exe, 0) {
        RegisterRun::SetValue(value) => value,
        other => panic!("unexpected {other:?}"),
    };
    assert_eq!(
        value,
        SourceValue::EventMessageFile("flamingo-agent.exe".to_string())
    );
    let value = match after_set_value(value, Ok(0)) {
        RegisterRun::SetValue(value) => value,
        other => panic!("unexpected {other:?}"),
    };
    assert_eq!(value, SourceValue::TypesSupported(7));
    let result = match after_set_value(value, Ok(0)) {
        RegisterRun::CloseKey { result } => result,
        other => panic!("unexpected {other:?}"),
    };
    assert!(matches!(
        after_close_key(result),
        RegisterRun::Ended(Ok(()))
    ));
    assert!(unregister_source(0).is_ok());
    assert_eq!(
        unregister_source(5).unwrap_err().message(),
        "RegDeleteKeyW failed with OS error 5"
    );
}

#[test]
fn a_failed_registration_closes_the_key() {
    let exe = PathBuf::from("flamingo-agent.exe");
    let err = match after_create_key(&exe, 5) {
        RegisterRun::Ended(Err(err)) => err,
        other => panic!("unexpected {other:?}"),
    };
    assert_eq!(err.message(), "RegCreateKeyExW failed with OS error 5");
    let result = match after_set_value(SourceValue::TypesSupported(7), Ok(5)) {
        RegisterRun::CloseKey { result } => result,
        other => panic!("unexpected {other:?}"),
    };
    assert_eq!(
        result.unwrap_err().message(),
        "RegSetValueExW failed with OS error 5"
    );
}

#[test]
fn a_value_that_is_too_long_closes_the_key_with_its_error() {
    let too_long = value_size(0x8000_0000).unwrap_err();
    let value = SourceValue::EventMessageFile("agent.exe".to_string());
    let result = match after_set_value(value, Err(too_long)) {
        RegisterRun::CloseKey { result } => result,
        run => panic!("{run:?}"),
    };
    match after_close_key(result) {
        RegisterRun::Ended(result) => assert_eq!(
            result,
            Err(ServiceError::Registry {
                call: "RegSetValueExW",
                code: 0
            })
        ),
        run => panic!("{run:?}"),
    }
}

#[test]
fn values_have_sizes_in_bytes() {
    assert_eq!(value_size(19), Ok(38));
    assert_eq!(value_size(0x7fff_ffff), Ok(0xffff_fffe));
    assert!(value_size(0x8000_0000).is_err());
}

#[test]
fn the_event_source_has_its_key() {
    assert_eq!(
        source_key(SERVICE_NAME),
        r"SYSTEM\CurrentControlSet\Services\EventLog\Application\FlamingoAgent"
    );
}

#[test]
fn the_dispatcher_tells_a_service_from_a_shell() {
    assert_eq!(run_dispatcher(Ok(())), Ok(Dispatch::RanAsService));
    assert_eq!(run_dispatcher(Err(api(1063))), Ok(Dispatch::NotAService));
    assert_eq!(
        run_dispatcher(Err(api(5))),
        Err(ServiceError::Api(api(5)))
    );
    assert_eq!(unsupported::run_dispatcher(), Ok(Dispatch::NotAService));
    assert_eq!(unsupported::uninstall(), Err(ServiceError::Unsupported));
}

#[test]
fn controls_are_answered() {
    for control in [Control::Stop, Control::Shutdown] {
        let response = on_control(control);
        assert!(response.stop && response.known);
    }
    let response = on_control(Control::Interrogate);
    assert!(!response.stop && response.known);
    let response = on_control(Control::Other);
    assert!(!response.stop && !response.known);
}

/// Run a service to its end; gives back the exit code that it reported and its last event.
fn serve(outcome: AgentOutcome) -> (ExitCode, LogEvent) {
    let log = "/logs/agent.log";
    assert!(matches!(
        after_register(Ok(())),
        ServiceRun::ReportStarting
    ));
    assert!(matches!(
        after_starting(Ok(())),
        ServiceRun::ParseArguments
    ));
    let (run, event) = after_parse(Ok(()));
    assert!(matches!(run, ServiceRun::RunAgent));
    assert!(event.is_none());
    let (event, exit_code) = match after_agent(log, outcome) {
        ServiceRun::ReportStopping { event, exit_code } => (event, exit_code),
        other => panic!("unexpected {other:?}"),
    };
    let (run, event) = after_stopping(event, exit_code);
    let exit_code = match run {
        ServiceRun::ReportStopped { exit_code } => exit_code,
        other => panic!("unexpected {other:?}"),
    };
    assert!(matches!(
        after_stopped(exit_code, Ok(())),
        ServiceRun::Ended(Ok(()))
    ));
    (exit_code, event.unwrap())
}

#[test]
fn a_service_ends_with_the_code_and_event_of_its_end() {
    assert_eq!(
        serve(AgentOutcome::Returned(Ok(()))),
        (
            ExitCode::Win32(0),
            LogEvent {
                kind: EventKind::Info,
                id: EVENT_STOPPED,
                message: "Flamingo Agent stopped on request".to_string(),
            }
        )
    );
    let err = AgentError::Config(ConfigError::TimeoutNotBelowPeriod {
        timeout: 4,
        period: 4,
    });
    assert_eq!(
        serve(AgentOutcome::Returned(Err(err))),
        (
            ExitCode::ServiceSpecific(1),
            LogEvent {
                kind: EventKind::Error,
                id: EVENT_BOOTSTRAP_FAILED,
                message: "Flamingo Agent failed to start: \
                          child timeout (4s) must be shorter than the period (4s)"
                    .to_string(),
            }
        )
    );
    assert_eq!(
        serve(AgentOutcome::Panicked(PanicPayload::Static("boom"))),
        (
            ExitCode::ServiceSpecific(2),
            LogEvent {
                kind: EventKind::Error,
                id: EVENT_PANIC,
                message: "Flamingo Agent stopped after a panic: boom; see /logs/agent.log"
                    .to_string(),
            }
        )
    );
}

#[test]
fn a_bad_command_line_stops_the_service_with_its_code() {
    let (run, event) = after_parse(Err("unexpected argument".to_string()));
    assert!(matches!(
        run,
        ServiceRun::ReportStopped {
            exit_code: ExitCode::ServiceSpecific(3)
        }
    ));
    let event = event.unwrap();
    assert_eq!(
        (event.kind, event.id),
        (EventKind::Error, EVENT_BAD_ARGUMENTS)
    );
    assert_eq!(
        event.message,
        "Flamingo Agent could not parse its registered command line: unexpected argument"
    );
}

#[test]
fn a_service_that_cannot_report_gives_up() {
    assert!(matches!(
        after_register(Err(api(5))),
        ServiceRun::Ended(Err(_))
    ));
    assert!(matches!(
        after_starting(Err(api(5))),
        ServiceRun::Ended(Err(_))
    ));
}

#[test]
fn a_ready_service_reports_running() {
    let log = agent_log_text(&Err(AgentError::Config(ConfigError::TimeoutNotBelowPeriod {
        timeout: 1,
        period: 1,
    })));
    assert_eq!(log, "agent.log");
    let (status, event) = on_ready(&log);
    assert_eq!(status, running());
    assert_eq!(
        event,
        LogEvent {
            kind: EventKind::Info,
            id: EVENT_STARTED,
            message: "Flamingo Agent started; details are logged to agent.log".to_string(),
        }
    );
}

#[test]
fn waiting_for_a_state_ends_one_way_or_another() {
    let ok = ExitCode::Win32(0);
    assert_eq!(
        wait_for_state(
            ServiceState::Running,
            Ok((ServiceState::StartPending, ok)),
            false
        ),
        Awaited::NotYet
    );
    assert_eq!(
        wait_for_state(ServiceState::Running, Ok((ServiceState::Running, ok)), true),
        Awaited::Over(Ok(()))
    );
    let failed = wait_for_state(
        ServiceState::Running,
        Ok((ServiceState::Stopped, ExitCode::ServiceSpecific(1))),
        false,
    );
    match failed {
        Awaited::Over(Err(err)) => assert_eq!(
            err.message(),
            "service stopped during start-up with exit code ServiceSpecific(1); \
             see agent.log or the System event log"
        ),
        other => panic!("unexpected {other:?}"),
    }
    let late = wait_for_state(
        ServiceState::Stopped,
        Ok((ServiceState::StopPending, ok)),
        true,
    );
    match late {
        Awaited::Over(Err(err)) => assert_eq!(
            err.message(),
            "timed out waiting for the service to reach Stopped"
        ),
        other => panic!("unexpected {other:?}"),
    }
    assert_eq!(
        wait_for_state(ServiceState::Stopped, Err(api(6)), false),
        Awaited::Over(Err(ServiceError::Api(api(6))))
    );
}

fn call(run: InstallRun) -> InstallCall {
    match run {
        InstallRun::Call(call) => call,
        other => panic!("unexpected {other:?}"),
    }
}

#[test]
fn a_first_installation_creates_registers_and_starts() {
    assert_eq!(
        call(after_call(InstallCall::Connect, Ok(()))),
        InstallCall::Create
    );
    assert_eq!(
        call(after_call(InstallCall::Create, Ok(()))),
        InstallCall::SetDescription
    );
    assert_eq!(
        call(after_call(InstallCall::SetDescription, Ok(()))),
        InstallCall::SetRecovery
    );
    assert_eq!(
        call(after_call(InstallCall::SetRecovery, Ok(()))),
        InstallCall::SetNonCrash
    );
    assert!(matches!(
        after_call(InstallCall::SetNonCrash, Ok(())),
        InstallRun::RegisterSource
    ));
    assert!(matches!(after_source(Ok(())), InstallRun::QueryState));
    assert_eq!(
        call(after_query(Ok(ServiceState::Stopped))),
        InstallCall::Start
    );
    assert!(matches!(
        after_call(InstallCall::Start, Ok(())),
        InstallRun::AwaitRunning
    ));
    assert!(matches!(after_await(Ok(())), InstallRun::Ended(Ok(()))));
}

#[test]
fn an_existing_service_is_updated() {
    assert_eq!(
        call(after_call(InstallCall::Create, Err(api(1073)))),
        InstallCall::Open
    );
    assert_eq!(
        call(after_call(InstallCall::Open, Ok(()))),
        InstallCall::ChangeConfig
    );
    assert_eq!(
        call(after_call(InstallCall::ChangeConfig, Ok(()))),
        InstallCall::SetDescription
    );
    assert!(matches!(
        after_query(Ok(ServiceState::StartPending)),
        InstallRun::AwaitRunning
    ));
}

#[test]
fn an_installation_fails_with_its_reason() {
    assert!(matches!(
        after_call(InstallCall::Create, Err(api(1072))),
        InstallRun::Ended(Err(ServiceError::MarkedForDelete))
    ));
    assert!(matches!(
        after_call(InstallCall::Open, Err(api(1073))),
        InstallRun::Ended(Err(ServiceError::Api(_)))
    ));
    assert!(matches!(
        after_query(Err(api(6))),
        InstallRun::Ended(Err(ServiceError::Api(_)))
    ));
    assert!(matches!(
        after_source(Err(ServiceError::Registry {
            call: "RegCreateKeyExW",
            code: 5
        })),
        InstallRun::Ended(Err(ServiceError::Registry { .. }))
    ));
}

#[test]
fn a_removal_stops_deletes_and_unregisters() {
    assert!(matches!(after_connect(Ok(())), UninstallRun::Open));
    assert!(matches!(after_open(Ok(())), UninstallRun::QueryState));
    assert!(matches!(
        after_query_for_removal(Ok(ServiceState::Running)),
        UninstallRun::Stop
    ));
    assert!(matches!(
        after_query_for_removal(Ok(ServiceState::Stopped)),
        UninstallRun::Delete
    ));
    assert!(matches!(
        after_stop(Ok(())),
        UninstallRun::AwaitStopped { refused: None }
    ));
    assert!(matches!(
        after_await_stopped(Some(api(1061)), Ok(())),
        UninstallRun::Delete
    ));
    assert!(matches!(
        after_delete(Ok(())),
        UninstallRun::UnregisterSource
    ));
    assert!(matches!(
        after_unregister(Ok(())),
        UninstallRun::Ended(Ok(()))
    ));
}

#[test]
fn a_removal_fails_with_its_reason() {
    assert!(matches!(
        after_connect(Err(api(5))),
        UninstallRun::Ended(Err(ServiceError::Api(_)))
    ));
    assert!(matches!(
        after_open(Err(api(1060))),
        UninstallRun::Ended(Err(ServiceError::NotInstalled))
    ));
    assert!(matches!(
        after_open(Err(api(5))),
        UninstallRun::Ended(Err(ServiceError::Api(_)))
    ));
    let timeout = || ServiceError::Timeout {
        wanted: "Stopped".to_string(),
    };
    let refused = match after_stop(Err(api(1061))) {
        UninstallRun::AwaitStopped { refused } => refused,
        other => panic!("unexpected {other:?}"),
    };
    match after_await_stopped(refused, Err(timeout())) {
        UninstallRun::Ended(Err(err)) => {
            assert_eq!(
                err.message(),
                "the service could not be stopped: IO error in winapi call"
            );
            assert_eq!(
                err.chain(),
                "the service could not be stopped: IO error in winapi call: \
                 IO error in winapi call: os error 1061"
            );
        }
        other => panic!("unexpected {other:?}"),
    }
    assert!(matches!(
        after_await_stopped(None, Err(timeout())),
        UninstallRun::Ended(Err(ServiceError::Timeout { .. }))
    ));
    assert!(matches!(
        after_delete(Err(api(1072))),
        UninstallRun::Ended(Err(ServiceError::Api(_)))
    ));
}

#[test]
fn service_errors_explain_themselves() {
    assert_eq!(
        ServiceError::Api(api(5)).chain(),
        "service control manager: IO error in winapi call: IO error in winapi call: os error 5"
    );
    let bare = ApiError {
        code: None,
        message: "bad name".to_string(),
        cause: None,
    };
    assert_eq!(
        ServiceError::Api(bare).chain(),
        "service control manager: bad name: bad name"
    );
    assert_eq!(
        ServiceError::NotInstalled.chain(),
        "FlamingoAgent is not installed"
    );
    assert_eq!(
        ServiceError::MarkedForDelete.message(),
        "FlamingoAgent is marked for deletion; close the Services console and try again"
    );
}
