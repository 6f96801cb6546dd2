//! Laws of the Windows service: its life, its installation and its removal.

use vstd::prelude::*;

use std::path::PathBuf;

use crate::app::AgentError;
use crate::laws::text::{decimals_read_back, number};
use crate::paths::path_text;
use crate::service::eventlog::{
    after_close_key, after_create_key, after_set_value, register_step, source_key,
    unregister_source, value_size, EventKind, LogEvent, RegisterEvent, RegisterRun, SourceValue,
};
use crate::service::unsupported;
use crate::service::windows::{
    action_at, after_agent, after_await, after_await_stopped, after_call, after_connect,
    after_delete, after_open, after_parse, after_query, after_query_for_removal, after_register,
    after_source, after_starting, after_stop, after_stopped, after_stopping, after_unregister,
    install_step, is_install_trace, on_control, on_ready, panic_message, pending, recovery_policy,
    run_dispatcher, running, service_info, service_step, stopped, uninstall_step, wait_for_state,
    ActionType, AgentOutcome, Awaited, Control, ControlResponse, ErrorControl, ExitCode,
    FailureActions, InstallCall, InstallEvent, InstallRun, PanicPayload, ServiceEvent, ServiceInfo,
    ServiceRun, ServiceState, ServiceStatus, ServiceType, StartType, UninstallEvent, UninstallRun,
};
use crate::service::{ApiError, Dispatch, ServiceError};
use crate::text::decimal_string;

verus! {

/// A process runs as a service where the dispatcher took it, from a shell exactly where that
/// failed with code 1063, and any other failure is an error.
pub proof fn only_the_connection_error_means_a_shell(
    started: Result<(), ApiError>,
    dispatched: Result<Dispatch, ServiceError>,
)
    requires
        call_ensures(run_dispatcher, (started,), dispatched),
    ensures
        dispatched == Ok::<Dispatch, ServiceError>(Dispatch::RanAsService) <==> started is Ok,
        dispatched == Ok::<Dispatch, ServiceError>(Dispatch::NotAService) <==> (started matches Err(
            err,
        ) && err.code == Some(1063i32)),
        started matches Err(err) ==> err.code != Some(1063i32) ==> dispatched == Err::<
            Dispatch,
            ServiceError,
        >(ServiceError::Api(err)),
{
}

/// What the service reports of itself: only while it runs does it take a stop or hear of a
/// shutdown, a change of state is announced for ten seconds, and only a stopped service has an
/// exit code of its own.
pub proof fn reports_tell_the_state(
    state: ServiceState,
    on_its_way: ServiceStatus,
    up: ServiceStatus,
    exit_code: ExitCode,
    down: ServiceStatus,
)
    requires
        call_ensures(pending, (state,), on_its_way),
        call_ensures(running, (), up),
        call_ensures(stopped, (exit_code,), down),
    ensures
        on_its_way.current_state == state,
        up.current_state == ServiceState::Running,
        down.current_state == ServiceState::Stopped,
        up.controls_accepted.stop && up.controls_accepted.shutdown,
        !on_its_way.controls_accepted.stop && !on_its_way.controls_accepted.shutdown,
        !down.controls_accepted.stop && !down.controls_accepted.shutdown,
        on_its_way.wait_hint.secs == 10 && on_its_way.wait_hint.nanos == 0,
        up.wait_hint.secs == 0 && down.wait_hint.secs == 0,
        up.wait_hint.nanos == 0 && down.wait_hint.nanos == 0,
        on_its_way.exit_code == ExitCode::Win32(0),
        up.exit_code == ExitCode::Win32(0),
        down.exit_code == exit_code,
        on_its_way.checkpoint == 0 && up.checkpoint == 0 && down.checkpoint == 0,
        on_its_way.process_id is None && up.process_id is None && down.process_id is None,
{
}

/// The agent is registered under its own name and executable, to start with the system, as
/// LocalSystem and without arguments.
pub proof fn the_registration_names_the_agent(exe: PathBuf, info: ServiceInfo)
    requires
        call_ensures(service_info, (&exe,), info),
    ensures
        info.name@ == "FlamingoAgent"@,
        info.display_name@ == "Flamingo Agent"@,
        info.executable_path == exe,
        info.start_type == StartType::AutoStart,
        info.service_type == ServiceType::OwnProcess,
        info.error_control == ErrorControl::Normal,
        info.launch_arguments@.len() == 0 && info.dependencies@.len() == 0,
        info.account_name is None && info.account_password is None,
{
}

/// A service that fails is restarted after five seconds, two times, and then left alone until
/// it has run for a day.
pub proof fn failures_are_answered_twice(policy: FailureActions, n: nat)
    requires
        call_ensures(recovery_policy, (), policy),
    ensures
        policy.reset_period.secs == 24 * 60 * 60 && policy.reset_period.nanos == 0,
        n < 2 ==> action_at(policy, n).action_type == ActionType::Restart && action_at(
            policy,
            n,
        ).delay.secs == 5 && action_at(policy, n).delay.nanos == 0,
        n >= 2 ==> action_at(policy, n).action_type == ActionType::Nothing,
        policy.actions@.len() == 3,
        policy.command is None && policy.reboot_msg is None,
{
}

/// A stop and a shutdown end the run, and no other control does; every control but an unknown
/// one is acknowledged.
pub proof fn only_stop_and_shutdown_end_the_run(control: Control, response: ControlResponse)
    requires
        call_ensures(on_control, (control,), response),
    ensures
        response.stop <==> control == Control::Stop || control == Control::Shutdown,
        response.known <==> control == Control::Stop || control == Control::Shutdown || control
            == Control::Interrogate,
{
}

/// The service that is ready reports Running and tells where its log is, as event 1.
pub proof fn a_ready_service_is_running(agent_log: &str, turn: (ServiceStatus, LogEvent))
    requires
        call_ensures(on_ready, (agent_log,), turn),
    ensures
        turn.0.current_state == ServiceState::Running,
        turn.0.controls_accepted.stop && turn.0.controls_accepted.shutdown,
        turn.1.id == 1,
        turn.1.kind == EventKind::Info,
        turn.1.message@ == "Flamingo Agent started; details are logged to "@ + agent_log@,
{
}

/// The exit code with which a service stops tells what ended it: 0 exactly where its run ended
/// well, and a code of its own otherwise: 1 for a failed bootstrap, 2 for a panic. The event
/// that goes with it is number 2, 3 or 4, and only the first of these is no error.
pub proof fn services_stop_with_the_code_of_their_end(
    agent_log: Seq<char>,
    outcome: AgentOutcome,
    after: ServiceRun,
    log: Option<LogEvent>,
)
    requires
        service_step(
            agent_log,
            ServiceRun::RunAgent,
            ServiceEvent::AgentEnded(outcome),
            after,
            log,
        ),
    ensures
        after is ReportStopping,
        log is None,
        (outcome matches AgentOutcome::Returned(Ok(_))) <==> after->ReportStopping_exit_code
            == ExitCode::Win32(0),
        (outcome matches AgentOutcome::Returned(Err(_))) <==> after->ReportStopping_exit_code
            == ExitCode::ServiceSpecific(1),
        outcome is Panicked <==> after->ReportStopping_exit_code == ExitCode::ServiceSpecific(2),
        (outcome matches AgentOutcome::Returned(Ok(_))) <==> after->event.id == 2,
        (outcome matches AgentOutcome::Returned(Err(_))) <==> after->event.id == 3,
        outcome is Panicked <==> after->event.id == 4,
        after->event.kind == EventKind::Info <==> (outcome matches AgentOutcome::Returned(Ok(_))),
{
}

/// What ended a service is told in the event: that it was asked to stop, the error that kept it
/// from starting, or the panic's words with the log to look into. It stops with 0, 1 or 2.
pub proof fn events_tell_what_ended_the_service(
    agent_log: &str,
    outcome: AgentOutcome,
    after: ServiceRun,
    err: AgentError,
    error: String,
    payload: PanicPayload,
    words: &str,
)
    requires
        call_ensures(after_agent, (agent_log, outcome), after),
        call_ensures(AgentError::message, (&err,), error),
        call_ensures(panic_message, (&payload,), words),
    ensures
        after is ReportStopping,
        outcome == AgentOutcome::Returned(Ok(())) ==> {
            &&& after->ReportStopping_exit_code == ExitCode::Win32(0)
            &&& after->event.id == 2
            &&& after->event.kind == EventKind::Info
            &&& after->event.message@ == "Flamingo Agent stopped on request"@
        },
        outcome == AgentOutcome::Returned(Err(err)) ==> {
            &&& after->ReportStopping_exit_code == ExitCode::ServiceSpecific(1)
            &&& after->event.id == 3
            &&& after->event.kind == EventKind::Error
            &&& after->event.message@ == "Flamingo Agent failed to start: "@ + error@
        },
        outcome == AgentOutcome::Panicked(payload) ==> {
            &&& after->ReportStopping_exit_code == ExitCode::ServiceSpecific(2)
            &&& after->event.id == 4
            &&& after->event.kind == EventKind::Error
            &&& after->event.message@ == "Flamingo Agent stopped after a panic: "@ + words@
                + "; see "@ + agent_log@
        },
{
}

/// Without a service manager nothing is installed or removed, and every bare invocation comes
/// from a shell.
pub proof fn without_a_manager_there_is_no_service(
    exe: PathBuf,
    installed: Result<(), ServiceError>,
    removed: Result<(), ServiceError>,
    dispatched: Result<Dispatch, ServiceError>,
)
    requires
        call_ensures(unsupported::install, (&exe,), installed),
        call_ensures(unsupported::uninstall, (), removed),
        call_ensures(unsupported::run_dispatcher, (), dispatched),
    ensures
        installed matches Err(ServiceError::Unsupported),
        removed matches Err(ServiceError::Unsupported),
        dispatched == Ok::<Dispatch, ServiceError>(Dispatch::NotAService),
{
}

/// Each step of the service's life leads to the next: it registers its handler, reports that it
/// starts, reads its command line and runs the agent. A command line that does not parse stops
/// it with code 3 and event 5; whatever it stops with is what it then reports.
pub proof fn services_go_through_their_life(
    agent_log: Seq<char>,
    before: ServiceRun,
    event: ServiceEvent,
    after: ServiceRun,
    log: Option<LogEvent>,
)
    requires
        service_step(agent_log, before, event, after, log),
    ensures
        after is ReportStarting <==> (event matches ServiceEvent::Registered(Ok(_))),
        after is ParseArguments <==> (event matches ServiceEvent::StartingReported(Ok(_))),
        after is RunAgent <==> (event matches ServiceEvent::Parsed(Ok(_))),
        after is ReportStopping <==> event is AgentEnded,
        event matches ServiceEvent::Registered(Err(err)) ==> after == ServiceRun::Ended(Err(err)),
        event matches ServiceEvent::StartingReported(Err(err)) ==> after == ServiceRun::Ended(
            Err(err),
        ),
        event matches ServiceEvent::Parsed(Err(error)) ==> {
            &&& after == ServiceRun::ReportStopped { exit_code: ExitCode::ServiceSpecific(3) }
            &&& log matches Some(line)
            &&& line.id == 5
            &&& line.kind == EventKind::Error
            &&& line.message@
                == "Flamingo Agent could not parse its registered command line: "@ + error@
        },
        before matches ServiceRun::ReportStopping { event: line, exit_code } ==> after
            == (ServiceRun::ReportStopped { exit_code }) && log == Some(line),
        event matches ServiceEvent::StoppedReported(result) ==> after == ServiceRun::Ended(result),
        log is Some <==> event is StoppingReported || (event matches ServiceEvent::Parsed(Err(_))),
        after is ReportStopped ==> event is StoppingReported || (event
            matches ServiceEvent::Parsed(Err(_))),
{
}

/// A service that is registered reports that it starts, reads its command line and runs the
/// agent, each once the step before has succeeded; a failed report ends it with its error.
pub proof fn services_start_step_by_step(
    registered: Result<(), ApiError>,
    starting: ServiceRun,
    reported: Result<(), ApiError>,
    parsing: ServiceRun,
    parsed: Result<(), String>,
    turn: (ServiceRun, Option<LogEvent>),
)
    requires
        call_ensures(after_register, (registered,), starting),
        call_ensures(after_starting, (reported,), parsing),
        call_ensures(after_parse, (parsed,), turn),
    ensures
        registered is Ok ==> starting is ReportStarting,
        registered matches Err(err) ==> starting == ServiceRun::Ended(Err(err)),
        reported is Ok ==> parsing is ParseArguments,
        reported matches Err(err) ==> parsing == ServiceRun::Ended(Err(err)),
        parsed is Ok ==> turn.0 is RunAgent && turn.1 is None,
        parsed matches Err(error) ==> {
            &&& turn.0 == ServiceRun::ReportStopped { exit_code: ExitCode::ServiceSpecific(3) }
            &&& turn.1 matches Some(line)
            &&& line.id == 5
            &&& line.kind == EventKind::Error
            &&& line.message@
                == "Flamingo Agent could not parse its registered command line: "@ + error@
        },
{
    let log = Seq::<char>::empty();
    assert(service_step(
        log,
        ServiceRun::Register,
        ServiceEvent::Registered(registered),
        starting,
        None,
    ));
    assert(service_step(
        log,
        ServiceRun::ReportStarting,
        ServiceEvent::StartingReported(reported),
        parsing,
        None,
    ));
    assert(service_step(
        log,
        ServiceRun::ParseArguments,
        ServiceEvent::Parsed(parsed),
        turn.0,
        turn.1,
    ));
}

/// A service that stops writes its event and reports its exit code, both as they were decided,
/// and ends as the last report did.
pub proof fn services_stop_step_by_step(
    event: LogEvent,
    exit_code: ExitCode,
    turn: (ServiceRun, Option<LogEvent>),
    reported: Result<(), ApiError>,
    run: ServiceRun,
)
    requires
        call_ensures(after_stopping, (event, exit_code), turn),
        call_ensures(after_stopped, (exit_code, reported), run),
    ensures
        turn.0 == (ServiceRun::ReportStopped { exit_code }),
        turn.1 == Some(event),
        run == ServiceRun::Ended(reported),
{
    let log = Seq::<char>::empty();
    assert(service_step(
        log,
        ServiceRun::ReportStopping { event, exit_code },
        ServiceEvent::StoppingReported,
        turn.0,
        turn.1,
    ));
    assert(service_step(
        log,
        ServiceRun::ReportStopped { exit_code },
        ServiceEvent::StoppedReported(reported),
        run,
        None,
    ));
}

/// A wait is over exactly where the wanted state is seen, where it cannot be reached any more,
/// where the state cannot be read, or where the time is up; and it succeeds in the first of
/// these alone, even at the last moment.
pub proof fn waits_end_in_the_wanted_state(
    wanted: ServiceState,
    state: ServiceState,
    exit_code: ExitCode,
    time_is_up: bool,
    awaited: Awaited,
)
    requires
        call_ensures(
            wait_for_state,
            (wanted, Ok::<(ServiceState, ExitCode), ApiError>((state, exit_code)), time_is_up),
            awaited,
        ),
    ensures
        (awaited matches Awaited::Over(Ok(_))) <==> state == wanted,
        awaited is NotYet <==> state != wanted && !time_is_up && !(wanted == ServiceState::Running
            && state == ServiceState::Stopped),
        (awaited matches Awaited::Over(Err(ServiceError::FailedToStart { .. }))) <==> wanted
            == ServiceState::Running && state == ServiceState::Stopped,
        (awaited matches Awaited::Over(Err(ServiceError::Timeout { .. }))) <==> state != wanted
            && time_is_up && !(wanted == ServiceState::Running && state == ServiceState::Stopped),
{
}

/// A service that stopped while it was to start is reported with its exit code, which reads back
/// as it is, and a wait that took too long with the name of the state that it was for.
pub proof fn failed_waits_tell_why(
    wanted: ServiceState,
    state: ServiceState,
    exit_code: ExitCode,
    code: u32,
    digits: String,
    time_is_up: bool,
    awaited: Awaited,
)
    requires
        call_ensures(
            wait_for_state,
            (wanted, Ok::<(ServiceState, ExitCode), ApiError>((state, exit_code)), time_is_up),
            awaited,
        ),
        call_ensures(decimal_string, (code as u64,), digits),
    ensures
        number(digits@) == code,
        awaited matches Awaited::Over(Err(ServiceError::FailedToStart { exit_code: text })) ==> {
            &&& exit_code == ExitCode::Win32(code) ==> text@ == "Win32("@ + digits@ + ")"@
            &&& exit_code == ExitCode::ServiceSpecific(code) ==> text@ == "ServiceSpecific("@
                + digits@ + ")"@
        },
        awaited matches Awaited::Over(Err(ServiceError::Timeout { wanted: name })) ==> {
            &&& wanted == ServiceState::Stopped ==> name@ == "Stopped"@
            &&& wanted == ServiceState::StartPending ==> name@ == "StartPending"@
            &&& wanted == ServiceState::StopPending ==> name@ == "StopPending"@
            &&& wanted == ServiceState::Running ==> name@ == "Running"@
            &&& wanted == ServiceState::ContinuePending ==> name@ == "ContinuePending"@
            &&& wanted == ServiceState::PausePending ==> name@ == "PausePending"@
            &&& wanted == ServiceState::Paused ==> name@ == "Paused"@
        },
{
    decimals_read_back(code as u64, digits);
}

/// A state that cannot be read ends the wait with the error.
pub proof fn unreadable_states_end_the_wait(
    wanted: ServiceState,
    err: ApiError,
    time_is_up: bool,
    awaited: Awaited,
)
    requires
        call_ensures(
            wait_for_state,
            (wanted, Err::<(ServiceState, ExitCode), ApiError>(err), time_is_up),
            awaited,
        ),
    ensures
        awaited == Awaited::Over(Err(ServiceError::Api(err))),
{
}

/// A service is started exactly where it was read as stopped; one in any other state, running
/// or on its way, goes straight to the wait.
pub proof fn only_a_stopped_service_is_started(
    queried: Result<ServiceState, ApiError>,
    run: InstallRun,
)
    requires
        call_ensures(after_query, (queried,), run),
    ensures
        run == InstallRun::Call(InstallCall::Start) <==> queried == Ok::<ServiceState, ApiError>(
            ServiceState::Stopped,
        ),
        run is AwaitRunning <==> queried is Ok && queried->Ok_0 != ServiceState::Stopped,
        queried matches Err(err) ==> run == InstallRun::Ended(Err(ServiceError::Api(err))),
{
}

/// In every installation, a start directly follows a reading of the state as stopped, the wait
/// follows a start that succeeded or a reading of any other state, and an installation that
/// succeeds ends with a wait that saw the service running.
pub proof fn starts_follow_a_stopped_reading(runs: Seq<InstallRun>, events: Seq<InstallEvent>)
    requires
        is_install_trace(runs, events),
        events.len() > 0,
    ensures
        runs.last() == InstallRun::Call(InstallCall::Start) ==> events.last()
            == InstallEvent::Queried(Ok(ServiceState::Stopped)),
        runs.last() is AwaitRunning ==> (events.last() matches InstallEvent::Called(Ok(_))) || (
        events.last() matches InstallEvent::Queried(Ok(state)) && state != ServiceState::Stopped),
        events.last() matches InstallEvent::Queried(Ok(state)) ==> if state
            == ServiceState::Stopped {
            runs.last() == InstallRun::Call(InstallCall::Start)
        } else {
            runs.last() is AwaitRunning
        },
        runs.last() is QueryState ==> (events.last() matches InstallEvent::SourceRegistered(Ok(_))),
        runs.last() == InstallRun::Ended(Ok(())) ==> events.last() == InstallEvent::Awaited(Ok(())),
        runs.last() == InstallRun::Call(InstallCall::Open) ==> (events.last()
            matches InstallEvent::Called(Err(err)) && err.code == Some(1073i32)),
{
    let n = events.len() - 1;
    assert(install_step(runs[n], events[n], runs[n + 1]));
}

/// What follows each call of an installation: a service that exists already (code 1073) is
/// opened and brought up to date, one that is marked for deletion (code 1072) is reported as
/// such, any other failure ends the installation, and each success leads on.
pub proof fn calls_lead_on(call: InstallCall, result: Result<(), ApiError>, run: InstallRun)
    requires
        call_ensures(after_call, (call, result), run),
    ensures
        result matches Err(err) ==> call == InstallCall::Create && err.code == Some(1073i32) ==> run
            == InstallRun::Call(InstallCall::Open),
        result matches Err(err) ==> call == InstallCall::Create && err.code == Some(1072i32) ==> run
            == InstallRun::Ended(Err(ServiceError::MarkedForDelete)),
        result matches Err(err) ==> !(call == InstallCall::Create && (err.code == Some(1073i32)
            || err.code == Some(1072i32))) ==> run == InstallRun::Ended(
            Err(ServiceError::Api(err)),
        ),
        result is Ok ==> run == match call {
            InstallCall::Connect => InstallRun::Call(InstallCall::Create),
            InstallCall::Create => InstallRun::Call(InstallCall::SetDescription),
            InstallCall::Open => InstallRun::Call(InstallCall::ChangeConfig),
            InstallCall::ChangeConfig => InstallRun::Call(InstallCall::SetDescription),
            InstallCall::SetDescription => InstallRun::Call(InstallCall::SetRecovery),
            InstallCall::SetRecovery => InstallRun::Call(InstallCall::SetNonCrash),
            InstallCall::SetNonCrash => InstallRun::RegisterSource,
            InstallCall::Start => InstallRun::AwaitRunning,
        },
{
}

/// The event source comes before the state is read, and its failure ends the installation; the
/// installation's end is what the wait came to.
pub proof fn sources_come_before_the_state(
    registered: Result<(), ServiceError>,
    run: InstallRun,
    awaited: Result<(), ServiceError>,
    end: InstallRun,
)
    requires
        call_ensures(after_source, (registered,), run),
        call_ensures(after_await, (awaited,), end),
    ensures
        run is QueryState <==> registered is Ok,
        registered matches Err(err) ==> run == InstallRun::Ended(Err(err)),
        end == InstallRun::Ended(awaited),
{
}

/// The call was made and succeeded at some point of the installation.
pub open spec fn was_done(
    runs: Seq<InstallRun>,
    events: Seq<InstallEvent>,
    call: InstallCall,
    i: int,
) -> bool {
    0 <= i < events.len() && runs[i] == InstallRun::Call(call) && (events[i]
        matches InstallEvent::Called(Ok(_)))
}

/// The same, somewhere.
pub open spec fn is_done(
    runs: Seq<InstallRun>,
    events: Seq<InstallEvent>,
    call: InstallCall,
) -> bool {
    exists|i: int| was_done(runs, events, call, i)
}

proof fn lemma_done_before(runs: Seq<InstallRun>, events: Seq<InstallEvent>, call: InstallCall)
    requires
        runs.len() == events.len() + 1,
        events.len() > 0,
        is_done(runs.drop_last(), events.drop_last(), call),
    ensures
        is_done(runs, events, call),
{
    let i = choose|i: int| was_done(runs.drop_last(), events.drop_last(), call, i);
    assert(was_done(runs, events, call, i));
}

/// The service is registered, whether it was created or brought up to date.
pub open spec fn is_registered(runs: Seq<InstallRun>, events: Seq<InstallEvent>) -> bool {
    is_done(runs, events, InstallCall::Create) || is_done(runs, events, InstallCall::ChangeConfig)
}

/// Whatever an installation has come to, everything before it was done: the service is
/// registered before it is described, described before its recovery is set, and so on; and one
/// that succeeded has done it all.
pub proof fn installations_do_everything(runs: Seq<InstallRun>, events: Seq<InstallEvent>)
    requires
        is_install_trace(runs, events),
    ensures
        ({
            let run = runs.last();
            let late = run is RegisterSource || run is QueryState || run is AwaitRunning || run
                == InstallRun::Call(InstallCall::Start) || run == InstallRun::Ended(Ok(()));
            &&& run == InstallRun::Call(InstallCall::SetDescription) || run == InstallRun::Call(
                InstallCall::SetRecovery,
            ) || run == InstallRun::Call(InstallCall::SetNonCrash) || late ==> is_registered(
                runs,
                events,
            )
            &&& run == InstallRun::Call(InstallCall::SetRecovery) || run == InstallRun::Call(
                InstallCall::SetNonCrash,
            ) || late ==> is_done(runs, events, InstallCall::SetDescription)
            &&& run == InstallRun::Call(InstallCall::SetNonCrash) || late ==> is_done(
                runs,
                events,
                InstallCall::SetRecovery,
            )
            &&& late ==> is_done(runs, events, InstallCall::SetNonCrash)
        }),
    decreases events.len(),
{
    if events.len() > 0 {
        let n = events.len() - 1;
        let earlier = runs.drop_last();
        let before = events.drop_last();
        assert forall|i: int| 0 <= i < before.len() implies install_step(
            earlier[i],
            #[trigger] before[i],
            earlier[i + 1],
        ) by {
            assert(before[i] == events[i]);
        }
        installations_do_everything(earlier, before);
        assert(install_step(runs[n], events[n], runs[n + 1]));
        assert(earlier.last() == runs[n]);
        if is_done(earlier, before, InstallCall::Create) {
            lemma_done_before(runs, events, InstallCall::Create);
        }
        if is_done(earlier, before, InstallCall::ChangeConfig) {
            lemma_done_before(runs, events, InstallCall::ChangeConfig);
        }
        if is_done(earlier, before, InstallCall::SetDescription) {
            lemma_done_before(runs, events, InstallCall::SetDescription);
        }
        if is_done(earlier, before, InstallCall::SetRecovery) {
            lemma_done_before(runs, events, InstallCall::SetRecovery);
        }
        if is_done(earlier, before, InstallCall::SetNonCrash) {
            lemma_done_before(runs, events, InstallCall::SetNonCrash);
        }
        match runs[n] {
            InstallRun::Call(call) => {
                if events[n] matches InstallEvent::Called(Ok(_)) {
                    assert(was_done(runs, events, call, n));
                }
            },
            _ => {},
        }
    }
}

/// A removal opens the service, stops it where it is not stopped, deletes it and removes the
/// event source. A service that was never installed (code 1060) is reported as such, and every
/// other failure with its own error.
pub proof fn removals_go_step_by_step(
    before: UninstallRun,
    event: UninstallEvent,
    after: UninstallRun,
)
    requires
        uninstall_step(before, event, after),
    ensures
        after is Open <==> (event matches UninstallEvent::Connected(Ok(_))),
        after is QueryState <==> (event matches UninstallEvent::Opened(Ok(_))),
        after is Stop <==> (event matches UninstallEvent::Queried(Ok(state)) && state
            != ServiceState::Stopped),
        after is Delete <==> event == UninstallEvent::Queried(Ok(ServiceState::Stopped)) || (event
            matches UninstallEvent::Awaited(Ok(_))),
        after is AwaitStopped <==> event is StopSent,
        event matches UninstallEvent::StopSent(sent) ==> (after->refused is None <==> sent is Ok),
        event matches UninstallEvent::StopSent(Err(err)) ==> after->refused == Some(err),
        after is UnregisterSource <==> (event matches UninstallEvent::Deleted(Ok(_))),
        event matches UninstallEvent::SourceRemoved(result) ==> after == UninstallRun::Ended(
            result,
        ),
        event matches UninstallEvent::Opened(Err(err)) ==> after == UninstallRun::Ended(
            Err(
                if err.code == Some(1060i32) {
                    ServiceError::NotInstalled
                } else {
                    ServiceError::Api(err)
                },
            ),
        ),
        event matches UninstallEvent::Connected(Err(err)) ==> after == UninstallRun::Ended(
            Err(ServiceError::Api(err)),
        ),
        event matches UninstallEvent::Queried(Err(err)) ==> after == UninstallRun::Ended(
            Err(ServiceError::Api(err)),
        ),
        event matches UninstallEvent::Deleted(Err(err)) ==> after == UninstallRun::Ended(
            Err(ServiceError::Api(err)),
        ),
        event matches UninstallEvent::Awaited(Err(err)) ==> (before
            matches UninstallRun::AwaitStopped { refused } && after == UninstallRun::Ended(
            Err(
                match refused {
                    Some(source) => ServiceError::StopFailed { source },
                    None => err,
                },
            ),
        )),
        before is Connect <==> event is Connected,
        before is Open <==> event is Opened,
        before is QueryState <==> event is Queried,
        before is Stop <==> event is StopSent,
        before is AwaitStopped <==> event is Awaited,
        before is Delete <==> event is Deleted,
        before is UnregisterSource <==> event is SourceRemoved,
{
}

/// So do the calls that take a removal from one step to the next.
pub proof fn removals_are_carried_out(
    connected: Result<(), ApiError>,
    opening: UninstallRun,
    opened: Result<(), ApiError>,
    querying: UninstallRun,
    queried: Result<ServiceState, ApiError>,
    stopping: UninstallRun,
)
    requires
        call_ensures(after_connect, (connected,), opening),
        call_ensures(after_open, (opened,), querying),
        call_ensures(after_query_for_removal, (queried,), stopping),
    ensures
        opening is Open <==> connected is Ok,
        connected matches Err(err) ==> opening == UninstallRun::Ended(Err(ServiceError::Api(err))),
        querying is QueryState <==> opened is Ok,
        querying == UninstallRun::Ended(Err(ServiceError::NotInstalled)) <==> (opened matches Err(
            err,
        ) && err.code == Some(1060i32)),
        opened matches Err(err) ==> err.code != Some(1060i32) ==> querying == UninstallRun::Ended(
            Err(ServiceError::Api(err)),
        ),
        stopping is Delete <==> queried == Ok::<ServiceState, ApiError>(ServiceState::Stopped),
        stopping is Stop <==> (queried matches Ok(state) && state != ServiceState::Stopped),
        queried matches Err(err) ==> stopping == UninstallRun::Ended(Err(ServiceError::Api(err))),
{
}

/// A service that was told to stop is awaited whether it took the order or not, and the refusal
/// is remembered: it is the error where the wait fails. Once stopped the service is deleted, and
/// then its event source is.
pub proof fn refused_stops_are_remembered(
    sent: Result<(), ApiError>,
    awaiting: UninstallRun,
    refused: Option<ApiError>,
    awaited: Result<(), ServiceError>,
    deleting: UninstallRun,
    deleted: Result<(), ApiError>,
    unregistering: UninstallRun,
    removed: Result<(), ServiceError>,
    ended: UninstallRun,
)
    requires
        call_ensures(after_stop, (sent,), awaiting),
        call_ensures(after_await_stopped, (refused, awaited), deleting),
        call_ensures(after_delete, (deleted,), unregistering),
        call_ensures(after_unregister, (removed,), ended),
    ensures
        awaiting is AwaitStopped,
        sent is Ok ==> awaiting->refused is None,
        sent matches Err(err) ==> awaiting->refused == Some(err),
        deleting is Delete <==> awaited is Ok,
        awaited is Err ==> (refused matches Some(source) ==> deleting == UninstallRun::Ended(
            Err(ServiceError::StopFailed { source }),
        )),
        awaited matches Err(err) ==> refused is None ==> deleting == UninstallRun::Ended(Err(err)),
        unregistering is UnregisterSource <==> deleted is Ok,
        deleted matches Err(err) ==> unregistering == UninstallRun::Ended(
            Err(ServiceError::Api(err)),
        ),
        ended == UninstallRun::Ended(removed),
{
}

/// The event source is registered under its own key: the value file is the executable, the
/// types are errors, warnings and information, and each step leads to the next or closes the
/// key with its error.
pub proof fn sources_are_registered_step_by_step(
    exe: PathBuf,
    before: RegisterRun,
    event: RegisterEvent,
    after: RegisterRun,
)
    requires
        register_step(exe, before, event, after),
    ensures
        event == RegisterEvent::KeyCreated(0) ==> (after matches RegisterRun::SetValue(
            SourceValue::EventMessageFile(file),
        ) && file@ == path_text(exe)),
        event matches RegisterEvent::KeyCreated(code) ==> code != 0 ==> (after
            matches RegisterRun::Ended(Err(ServiceError::Registry { call, code: c })) && c == code
            && call@ == "RegCreateKeyExW"@),
        event matches RegisterEvent::ValueSet(Ok(code)) ==> code != 0 ==> (after
            matches RegisterRun::CloseKey {
            result: Err(ServiceError::Registry { call, code: c }),
        } && c == code && call@ == "RegSetValueExW"@),
        event matches RegisterEvent::ValueSet(Err(err)) ==> after == (RegisterRun::CloseKey {
            result: Err(err),
        }),
        event == RegisterEvent::ValueSet(Ok(0)) ==> (before matches RegisterRun::SetValue(value)
            && if value is EventMessageFile {
            after == RegisterRun::SetValue(SourceValue::TypesSupported(7))
        } else {
            after matches RegisterRun::CloseKey { result: Ok(_) }
        }),
        event is KeyClosed ==> (before matches RegisterRun::CloseKey { result } && after
            == RegisterRun::Ended(result)),
{
}

/// So do the calls that take a registration from one step to the next.
pub proof fn registrations_are_carried_out(
    exe: PathBuf,
    created: u32,
    first: RegisterRun,
    value: SourceValue,
    written: Result<u32, ServiceError>,
    next: RegisterRun,
    result: Result<(), ServiceError>,
    ended: RegisterRun,
)
    requires
        call_ensures(after_create_key, (&exe, created), first),
        call_ensures(after_set_value, (value, written), next),
        call_ensures(after_close_key, (result,), ended),
    ensures
        created == 0 ==> (first matches RegisterRun::SetValue(SourceValue::EventMessageFile(file))
            && file@ == path_text(exe)),
        created != 0 ==> (first matches RegisterRun::Ended(
            Err(ServiceError::Registry { call, code }),
        ) && code == created && call@ == "RegCreateKeyExW"@),
        written == Ok::<u32, ServiceError>(0) && value is EventMessageFile ==> next
            == RegisterRun::SetValue(SourceValue::TypesSupported(7)),
        written == Ok::<u32, ServiceError>(0) && value is TypesSupported
            ==> next matches RegisterRun::CloseKey { result: Ok(_) },
        written matches Ok(number) ==> number != 0 ==> (next matches RegisterRun::CloseKey {
            result: Err(ServiceError::Registry { call, code }),
        } && code == number && call@ == "RegSetValueExW"@),
        written matches Err(err) ==> next == (RegisterRun::CloseKey { result: Err(err) }),
        ended == RegisterRun::Ended(result),
{
    assert(register_step(
        exe,
        RegisterRun::SetValue(value),
        RegisterEvent::ValueSet(written),
        next,
    ));
    assert(register_step(
        exe,
        RegisterRun::CloseKey { result },
        RegisterEvent::KeyClosed,
        ended,
    ));
}

/// The key of an event source ends in the source's name, below the Application log.
pub proof fn source_keys_name_the_source(source: &str, key: String)
    requires
        call_ensures(source_key, (source,), key),
    ensures
        key@ == "SYSTEM\\CurrentControlSet\\Services\\EventLog\\Application\\"@ + source@,
{
}

/// A source that was never registered is no error, nor is one that was removed; anything else
/// is, with its code.
pub proof fn missing_sources_are_removed(code: u32, removed: Result<(), ServiceError>)
    requires
        call_ensures(unregister_source, (code,), removed),
    ensures
        removed is Ok <==> code == 0 || code == 2,
        removed matches Err(err) ==> (err matches ServiceError::Registry { code: c, .. } && c
            == code),
{
}

/// The size of a value is two bytes for each of its units, where a size can hold that.
pub proof fn values_take_two_bytes_a_unit(units: usize, size: Result<u32, ServiceError>)
    requires
        call_ensures(value_size, (units,), size),
    ensures
        size matches Ok(bytes) ==> bytes == units + units,
        size is Ok <==> units + units <= 0xffff_ffff,
{
}

} // verus!
