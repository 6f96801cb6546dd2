//! Windows Service Control Manager: the service's lifecycle, its registration and its removal.

use vstd::prelude::*;

use std::path::PathBuf;

use crate::app::{agent_error_text, AgentError};
use crate::config::Config;
use crate::paths;
use crate::paths::path_text;
use crate::service::eventlog::{
    EventKind, LogEvent, EVENT_BAD_ARGUMENTS, EVENT_BOOTSTRAP_FAILED, EVENT_PANIC, EVENT_STARTED,
    EVENT_STOPPED,
};
use crate::service::{ApiError, Dispatch, ServiceError, SERVICE_DISPLAY_NAME, SERVICE_NAME};
use crate::span::Span;
use crate::text::{decimal, decimal_string};

verus! {

/// `StartServiceCtrlDispatcher` fails with this when the process was not started by the SCM.
pub const ERROR_FAILED_SERVICE_CONTROLLER_CONNECT: i32 = 1063;

/// `CreateService` fails with this when the name is already registered.
pub const ERROR_SERVICE_EXISTS: i32 = 1073;

/// `CreateService`/`OpenService` fail with this while a deleted registration still has open
/// handles (typically the Services console); the name becomes free once they are closed.
pub const ERROR_SERVICE_MARKED_FOR_DELETE: i32 = 1072;

/// `OpenService` fails with this when the name was never registered.
pub const ERROR_SERVICE_DOES_NOT_EXIST: i32 = 1060;

/// Seconds within which the SCM may expect the next report of a pending service.
pub const WAIT_HINT_SECS: u64 = 10;

/// Seconds that the service has to reach Running.
pub const START_TIMEOUT_SECS: u64 = 10;

/// Seconds that the service has to reach Stopped.
pub const STOP_TIMEOUT_SECS: u64 = 15;

/// Milliseconds between two looks at the service's state.
pub const POLL_MILLIS: u64 = 250;

/// Seconds before the SCM restarts the service after a failure.
pub const RESTART_DELAY_SECS: u64 = 5;

/// A failure-free stretch of this many seconds resets the attempt counter, so a service that
/// has run well for a day gets a fresh set of restarts the next time it fails.
pub const FAILURE_RESET_SECS: u64 = 86_400;

/// Service-specific exit code: the bootstrap failed.
pub const EXIT_BOOTSTRAP_FAILED: u32 = 1;

/// Service-specific exit code: the agent panicked.
pub const EXIT_PANIC: u32 = 2;

/// Service-specific exit code: the registered command line did not parse.
pub const EXIT_BAD_ARGUMENTS: u32 = 3;

/// What handing the process to the SCM means: `NotAService` when launched from a shell.
pub fn run_dispatcher(started: Result<(), ApiError>) -> (dispatched: Result<Dispatch, ServiceError>)
    ensures
        match started {
            Ok(_) => dispatched == Ok::<Dispatch, ServiceError>(Dispatch::RanAsService),
            Err(err) => if err.code == Some(ERROR_FAILED_SERVICE_CONTROLLER_CONNECT) {
                dispatched == Ok::<Dispatch, ServiceError>(Dispatch::NotAService)
            } else {
                dispatched == Err::<Dispatch, ServiceError>(ServiceError::Api(err))
            },
        },
{
    match started {
        Ok(_) => Ok(Dispatch::RanAsService),
        Err(err) => {
            if err.code == Some(ERROR_FAILED_SERVICE_CONTROLLER_CONNECT) {
                Ok(Dispatch::NotAService)
            } else {
                Err(ServiceError::Api(err))
            }
        },
    }
}

/// How a service runs.
#[derive(Debug, Clone, Copy, PartialEq, Eq, Structural)]
pub enum ServiceType {
    /// In a process of its own.
    OwnProcess,
}

/// The state of a service.
#[derive(Debug, Clone, Copy, PartialEq, Eq, Structural)]
pub enum ServiceState {
    /// Not running.
    Stopped,
    /// Starting.
    StartPending,
    /// Stopping.
    StopPending,
    /// Running.
    Running,
    /// Resuming.
    ContinuePending,
    /// Pausing.
    PausePending,
    /// Paused.
    Paused,
}

/// The controls that a service accepts.
#[derive(Debug, Clone, Copy, PartialEq, Eq, Structural)]
pub struct ControlsAccepted {
    /// Stop.
    pub stop: bool,
    /// System shutdown.
    pub shutdown: bool,
}

/// The exit code that a service reports.
#[derive(Debug, Clone, Copy, PartialEq, Eq, Structural)]
pub enum ExitCode {
    /// A Win32 error code.
    Win32(u32),
    /// A code of the service's own.
    ServiceSpecific(u32),
}

/// A status report to the SCM.
#[derive(Debug, Clone, Copy, PartialEq, Eq, Structural)]
pub struct ServiceStatus {
    /// How the service runs.
    pub service_type: ServiceType,
    /// Its state.
    pub current_state: ServiceState,
    /// The controls that it accepts now.
    pub controls_accepted: ControlsAccepted,
    /// Its exit code.
    pub exit_code: ExitCode,
    /// The progress of a lengthy operation.
    pub checkpoint: u32,
    /// How long the SCM should wait for the next report.
    pub wait_hint: Span,
    /// The process, where it is to be named.
    pub process_id: Option<u32>,
}

/// The report of a service that is on its way to another state: no controls are accepted, and
/// the next report follows within the wait hint.
pub fn pending(state: ServiceState) -> (status: ServiceStatus)
    ensures
        status == (ServiceStatus {
            service_type: ServiceType::OwnProcess,
            current_state: state,
            controls_accepted: ControlsAccepted { stop: false, shutdown: false },
            exit_code: ExitCode::Win32(0),
            checkpoint: 0,
            wait_hint: Span { secs: WAIT_HINT_SECS, nanos: 0 },
            process_id: None,
        }),
{
    ServiceStatus {
        service_type: ServiceType::OwnProcess,
        current_state: state,
        controls_accepted: ControlsAccepted { stop: false, shutdown: false },
        exit_code: ExitCode::Win32(0),
        checkpoint: 0,
        wait_hint: Span::from_secs(WAIT_HINT_SECS),
        process_id: None,
    }
}

/// The report of a running service, which can be stopped and hears of a system shutdown.
pub open spec fn running_status() -> ServiceStatus {
    ServiceStatus {
        service_type: ServiceType::OwnProcess,
        current_state: ServiceState::Running,
        controls_accepted: ControlsAccepted { stop: true, shutdown: true },
        exit_code: ExitCode::Win32(0),
        checkpoint: 0,
        wait_hint: Span { secs: 0, nanos: 0 },
        process_id: None,
    }
}

/// The report of a running service, which can be stopped and hears of a system shutdown.
pub fn running() -> (status: ServiceStatus)
    ensures
        status == running_status(),
{
    let mut status = pending(ServiceState::Running);
    status.controls_accepted = ControlsAccepted { stop: true, shutdown: true };
    status.wait_hint = Span::from_secs(0);
    status
}

/// The report of a stopped service, with its exit code.
pub fn stopped(exit_code: ExitCode) -> (status: ServiceStatus)
    ensures
        status == (ServiceStatus {
            service_type: ServiceType::OwnProcess,
            current_state: ServiceState::Stopped,
            controls_accepted: ControlsAccepted { stop: false, shutdown: false },
            exit_code,
            checkpoint: 0,
            wait_hint: Span { secs: 0, nanos: 0 },
            process_id: None,
        }),
{
    let mut status = pending(ServiceState::Stopped);
    status.exit_code = exit_code;
    status.wait_hint = Span::from_secs(0);
    status
}

/// When a service starts.
#[derive(Debug, Clone, Copy, PartialEq, Eq, Structural)]
pub enum StartType {
    /// With the system.
    AutoStart,
}

/// What happens when a service fails to start with the system.
#[derive(Debug, Clone, Copy, PartialEq, Eq, Structural)]
pub enum ErrorControl {
    /// It is logged, and the system goes on.
    Normal,
}

/// A service's registration.
#[derive(Debug, PartialEq, Eq)]
pub struct ServiceInfo {
    /// The service's name.
    pub name: &'static str,
    /// The name shown to people.
    pub display_name: &'static str,
    /// How it runs.
    pub service_type: ServiceType,
    /// When it starts.
    pub start_type: StartType,
    /// What happens when it fails to start.
    pub error_control: ErrorControl,
    /// The executable.
    pub executable_path: PathBuf,
    /// The arguments that it is started with.
    pub launch_arguments: Vec<String>,
    /// The services that have to run first.
    pub dependencies: Vec<String>,
    /// The account; LocalSystem where there is none.
    pub account_name: Option<String>,
    /// The account's password.
    pub account_password: Option<String>,
}

/// The registration of the agent: automatic start, its own process, LocalSystem, and no
/// launch arguments.
pub fn service_info(exe: &PathBuf) -> (info: ServiceInfo)
    ensures
        info.name@ == SERVICE_NAME@,
        info.display_name@ == SERVICE_DISPLAY_NAME@,
        info.service_type == ServiceType::OwnProcess,
        info.start_type == StartType::AutoStart,
        info.error_control == ErrorControl::Normal,
        info.executable_path == *exe,
        info.launch_arguments@.len() == 0,
        info.dependencies@.len() == 0,
        info.account_name is None,
        info.account_password is None,
{
    ServiceInfo {
        name: SERVICE_NAME,
        display_name: SERVICE_DISPLAY_NAME,
        service_type: ServiceType::OwnProcess,
        start_type: StartType::AutoStart,
        error_control: ErrorControl::Normal,
        executable_path: exe.clone(),
        launch_arguments: Vec::new(),
        dependencies: Vec::new(),
        account_name: None,
        account_password: None,
    }
}

/// What the SCM does after a failure.
#[derive(Debug, Clone, Copy, PartialEq, Eq, Structural)]
pub enum ActionType {
    /// Nothing.
    Nothing,
    /// Restart the service.
    Restart,
}

/// An action and when it is taken.
#[derive(Debug, Clone, Copy, PartialEq, Eq, Structural)]
pub struct FailureAction {
    /// The action.
    pub action_type: ActionType,
    /// The time before it is taken.
    pub delay: Span,
}

/// What the SCM does when the service fails.
#[derive(Debug, PartialEq, Eq)]
pub struct FailureActions {
    /// The failure-free time after which failures are counted anew.
    pub reset_period: Span,
    /// The message before a reboot.
    pub reboot_msg: Option<String>,
    /// The command to run.
    pub command: Option<String>,
    /// What to do at the first failure, the second and so on; the last entry stands for every
    /// later one.
    pub actions: Vec<FailureAction>,
}

/// The action taken at failure number `n`, counted from 0.
pub open spec fn action_at(policy: FailureActions, n: nat) -> FailureAction {
    if n < policy.actions@.len() {
        policy.actions@[n as int]
    } else {
        policy.actions@.last()
    }
}

/// The service is restarted at the first two failures, five seconds later each time, and left
/// alone after that, until a failure-free day has passed.
pub open spec fn restarts_twice(policy: FailureActions) -> bool {
    &&& policy.reset_period == (Span { secs: FAILURE_RESET_SECS, nanos: 0 })
    &&& policy.reboot_msg is None
    &&& policy.command is None
    &&& policy.actions@ == seq![
        FailureAction {
            action_type: ActionType::Restart,
            delay: Span { secs: RESTART_DELAY_SECS, nanos: 0 },
        },
        FailureAction {
            action_type: ActionType::Restart,
            delay: Span { secs: RESTART_DELAY_SECS, nanos: 0 },
        },
        FailureAction { action_type: ActionType::Nothing, delay: Span { secs: 0, nanos: 0 } },
    ]
}

/// What the SCM does when the service fails: restart it twice, five seconds apart, then
/// leave it stopped. A bounded count keeps a persistently broken deployment from restarting
/// forever, while the reset period makes the bound apply per incident rather than per
/// lifetime.
pub fn recovery_policy() -> (policy: FailureActions)
    ensures
        restarts_twice(policy),
{
    let restart = FailureAction {
        action_type: ActionType::Restart,
        delay: Span::from_secs(RESTART_DELAY_SECS),
    };
    let give_up = FailureAction { action_type: ActionType::Nothing, delay: Span::from_secs(0) };
    let mut actions: Vec<FailureAction> = Vec::new();
    actions.push(restart);
    actions.push(restart);
    actions.push(give_up);
    proof {
        assert(actions@ == seq![restart, restart, give_up]);
    }
    FailureActions {
        reset_period: Span::from_secs(FAILURE_RESET_SECS),
        reboot_msg: None,
        command: None,
        actions,
    }
}

/// However often the service fails in one incident, it is restarted two times and no more.
pub proof fn recovery_is_bounded(policy: FailureActions, n: nat)
    requires
        restarts_twice(policy),
    ensures
        action_at(policy, n).action_type == ActionType::Restart <==> n < 2,
{
}

/// A control that the SCM sends to the service.
#[derive(Debug, Clone, Copy, PartialEq, Eq, Structural)]
pub enum Control {
    /// Stop.
    Stop,
    /// The system shuts down.
    Shutdown,
    /// Report the present state.
    Interrogate,
    /// Anything else.
    Other,
}

/// What the control handler does.
#[derive(Debug, Clone, Copy, PartialEq, Eq, Structural)]
pub struct ControlResponse {
    /// Report StopPending and cancel the run.
    pub stop: bool,
    /// Answer that the control is known; otherwise that it is not implemented.
    pub known: bool,
}

/// The answer to a control: a stop and a shutdown end the run, an interrogation is
/// acknowledged, and nothing else is implemented.
pub fn on_control(control: Control) -> (response: ControlResponse)
    ensures
        response.stop == (control == Control::Stop || control == Control::Shutdown),
        response.known == (control != Control::Other),
{
    match control {
        Control::Stop | Control::Shutdown => ControlResponse { stop: true, known: true },
        Control::Interrogate => ControlResponse { stop: false, known: true },
        Control::Other => ControlResponse { stop: false, known: false },
    }
}

/// What a panic carried.
#[derive(Debug, PartialEq, Eq)]
pub enum PanicPayload {
    /// A text that the program holds.
    Static(&'static str),
    /// A text that was made for the panic.
    Owned(String),
    /// Anything else.
    Other,
}

/// The text of a panic payload.
pub open spec fn panic_text(payload: PanicPayload) -> Seq<char> {
    match payload {
        PanicPayload::Static(text) => text@,
        PanicPayload::Owned(text) => text@,
        PanicPayload::Other => "(non-string panic payload)"@,
    }
}

/// The text of a panic payload, when it is one of the two forms `panic!` produces.
pub fn panic_message(payload: &PanicPayload) -> (text: &str)
    ensures
        text@ == panic_text(*payload),
{
    match payload {
        PanicPayload::Static(text) => text,
        PanicPayload::Owned(text) => text.as_str(),
        PanicPayload::Other => "(non-string panic payload)",
    }
}

/// How the agent's run inside the service ended.
#[derive(Debug)]
pub enum AgentOutcome {
    /// It returned.
    Returned(Result<(), AgentError>),
    /// It panicked.
    Panicked(PanicPayload),
}

/// The path of the agent log as the service's events name it.
pub fn agent_log_text(resolved: &Result<Config, AgentError>) -> (text: String)
    ensures
        match resolved {
            Ok(cfg) => text@ == path_text(cfg.agent_log),
            Err(_) => text@ == "agent.log"@,
        },
{
    match resolved {
        Ok(cfg) => paths::display(&cfg.agent_log),
        Err(_) => "agent.log".to_owned(),
    }
}

/// The report and the event of a service whose loop is about to start.
pub fn on_ready(agent_log: &str) -> (turn: (ServiceStatus, LogEvent))
    ensures
        turn.0 == running_status(),
        turn.1.tells(
            EVENT_STARTED,
            "Flamingo Agent started; details are logged to "@ + agent_log@,
        ),
{
    let mut message = "Flamingo Agent started; details are logged to ".to_owned();
    message.append(agent_log);
    (running(), LogEvent { kind: EventKind::Info, id: EVENT_STARTED, message })
}

/// A service's run, by what has to be done next.
#[derive(Debug)]
pub enum ServiceRun {
    /// Register the control handler.
    Register,
    /// Report StartPending.
    ReportStarting,
    /// Parse the registered command line.
    ParseArguments,
    /// Run the agent; report Running when its loop is about to start.
    RunAgent,
    /// Report StopPending, then the event. That the report may fail changes nothing.
    ReportStopping {
        /// The event for the Application log.
        event: LogEvent,
        /// The exit code to end with.
        exit_code: ExitCode,
    },
    /// Report Stopped with this exit code.
    ReportStopped {
        /// The exit code.
        exit_code: ExitCode,
    },
    /// Nothing: the run is over.
    Ended(Result<(), ApiError>),
}

/// What the steps of a service's run report.
pub enum ServiceEvent {
    /// The control handler was registered, or not.
    Registered(Result<(), ApiError>),
    /// StartPending was reported, or not.
    StartingReported(Result<(), ApiError>),
    /// The command line was parsed, or not, with the error's text.
    Parsed(Result<(), String>),
    /// The agent's run ended.
    AgentEnded(AgentOutcome),
    /// StopPending was reported, or not.
    StoppingReported,
    /// Stopped was reported, or not.
    StoppedReported(Result<(), ApiError>),
}

/// The exit code that an agent's end stands for.
pub open spec fn outcome_exit_code(outcome: AgentOutcome) -> ExitCode {
    match outcome {
        AgentOutcome::Returned(Ok(_)) => ExitCode::Win32(0),
        AgentOutcome::Returned(Err(_)) => ExitCode::ServiceSpecific(EXIT_BOOTSTRAP_FAILED),
        AgentOutcome::Panicked(_) => ExitCode::ServiceSpecific(EXIT_PANIC),
    }
}

/// `event` tells how the agent's run ended.
pub open spec fn tells_outcome(event: LogEvent, outcome: AgentOutcome, agent_log: Seq<char>) -> bool {
    match outcome {
        AgentOutcome::Returned(Ok(_)) => event.tells(
            EVENT_STOPPED,
            "Flamingo Agent stopped on request"@,
        ),
        AgentOutcome::Returned(Err(err)) => event.tells(
            EVENT_BOOTSTRAP_FAILED,
            "Flamingo Agent failed to start: "@ + agent_error_text(err),
        ),
        AgentOutcome::Panicked(payload) => event.tells(
            EVENT_PANIC,
            "Flamingo Agent stopped after a panic: "@ + panic_text(payload) + "; see "@ + agent_log,
        ),
    }
}

/// `after` is where a service's run at `before` stands once `event` was reported, and `log`
/// what it writes to the Application log on the way.
pub open spec fn service_step(
    agent_log: Seq<char>,
    before: ServiceRun,
    event: ServiceEvent,
    after: ServiceRun,
    log: Option<LogEvent>,
) -> bool {
    match (before, event) {
        (ServiceRun::Register, ServiceEvent::Registered(result)) => log is None && match result {
            Ok(_) => after is ReportStarting,
            Err(err) => after == ServiceRun::Ended(Err(err)),
        },
        (ServiceRun::ReportStarting, ServiceEvent::StartingReported(result)) => log is None
            && match result {
            Ok(_) => after is ParseArguments,
            Err(err) => after == ServiceRun::Ended(Err(err)),
        },
        (ServiceRun::ParseArguments, ServiceEvent::Parsed(result)) => match result {
            Ok(_) => after is RunAgent && log is None,
            Err(error) => {
                &&& after == ServiceRun::ReportStopped {
                    exit_code: ExitCode::ServiceSpecific(EXIT_BAD_ARGUMENTS),
                }
                &&& log matches Some(line)
                &&& line.tells(
                    EVENT_BAD_ARGUMENTS,
                    "Flamingo Agent could not parse its registered command line: "@ + error@,
                )
            },
        },
        (ServiceRun::RunAgent, ServiceEvent::AgentEnded(outcome)) => {
            &&& log is None
            &&& after matches ServiceRun::ReportStopping { event: line, exit_code }
            &&& exit_code == outcome_exit_code(outcome)
            &&& tells_outcome(line, outcome, agent_log)
        },
        (
            ServiceRun::ReportStopping { event: line, exit_code },
            ServiceEvent::StoppingReported,
        ) => after == (ServiceRun::ReportStopped { exit_code }) && log == Some(line),
        (ServiceRun::ReportStopped { exit_code }, ServiceEvent::StoppedReported(result)) => after
            == ServiceRun::Ended(result) && log is None,
        _ => false,
    }
}

/// After the attempt to register the control handler.
pub fn after_register(registered: Result<(), ApiError>) -> (run: ServiceRun)
    ensures
        forall|agent_log: Seq<char>| #[trigger]
            service_step(
                agent_log,
                ServiceRun::Register,
                ServiceEvent::Registered(registered),
                run,
                None,
            ),
{
    match registered {
        Ok(_) => ServiceRun::ReportStarting,
        Err(err) => ServiceRun::Ended(Err(err)),
    }
}

/// After the attempt to report StartPending.
pub fn after_starting(reported: Result<(), ApiError>) -> (run: ServiceRun)
    ensures
        forall|agent_log: Seq<char>| #[trigger]
            service_step(
                agent_log,
                ServiceRun::ReportStarting,
                ServiceEvent::StartingReported(reported),
                run,
                None,
            ),
{
    match reported {
        Ok(_) => ServiceRun::ParseArguments,
        Err(err) => ServiceRun::Ended(Err(err)),
    }
}

/// After the attempt to parse the registered command line.
pub fn after_parse(parsed: Result<(), String>) -> (turn: (
    ServiceRun,
    Option<LogEvent>,
))
    ensures
        forall|agent_log: Seq<char>| #[trigger]
            service_step(
                agent_log,
                ServiceRun::ParseArguments,
                ServiceEvent::Parsed(parsed),
                turn.0,
                turn.1,
            ),
{
    match parsed {
        Ok(_) => (ServiceRun::RunAgent, None),
        Err(error) => {
            let mut message =
                "Flamingo Agent could not parse its registered command line: ".to_owned();
            message.append(error.as_str());
            let event = LogEvent { kind: EventKind::Error, id: EVENT_BAD_ARGUMENTS, message };
            (
                ServiceRun::ReportStopped {
                    exit_code: ExitCode::ServiceSpecific(EXIT_BAD_ARGUMENTS),
                },
                Some(event),
            )
        },
    }
}

/// After the agent's run.
pub fn after_agent(agent_log: &str, outcome: AgentOutcome) -> (run: ServiceRun)
    ensures
        service_step(
            agent_log@,
            ServiceRun::RunAgent,
            ServiceEvent::AgentEnded(outcome),
            run,
            None,
        ),
{
    match outcome {
        AgentOutcome::Returned(Ok(_)) => ServiceRun::ReportStopping {
            event: LogEvent {
                kind: EventKind::Info,
                id: EVENT_STOPPED,
                message: "Flamingo Agent stopped on request".to_owned(),
            },
            exit_code: ExitCode::Win32(0),
        },
        AgentOutcome::Returned(Err(err)) => {
            let mut message = "Flamingo Agent failed to start: ".to_owned();
            message.append(err.message().as_str());
            ServiceRun::ReportStopping {
                event: LogEvent { kind: EventKind::Error, id: EVENT_BOOTSTRAP_FAILED, message },
                exit_code: ExitCode::ServiceSpecific(EXIT_BOOTSTRAP_FAILED),
            }
        },
        AgentOutcome::Panicked(payload) => {
            let mut message = "Flamingo Agent stopped after a panic: ".to_owned();
            message.append(panic_message(&payload));
            message.append("; see ");
            message.append(agent_log);
            ServiceRun::ReportStopping {
                event: LogEvent { kind: EventKind::Error, id: EVENT_PANIC, message },
                exit_code: ExitCode::ServiceSpecific(EXIT_PANIC),
            }
        },
    }
}

/// After the attempt to report StopPending, however it went.
pub fn after_stopping(event: LogEvent, exit_code: ExitCode) -> (turn: (
    ServiceRun,
    Option<LogEvent>,
))
    ensures
        forall|agent_log: Seq<char>| #[trigger]
            service_step(
                agent_log,
                ServiceRun::ReportStopping { event, exit_code },
                ServiceEvent::StoppingReported,
                turn.0,
                turn.1,
            ),
{
    (ServiceRun::ReportStopped { exit_code }, Some(event))
}

/// After the attempt to report Stopped.
pub fn after_stopped(exit_code: ExitCode, reported: Result<(), ApiError>) -> (run: ServiceRun)
    ensures
        forall|agent_log: Seq<char>| #[trigger]
            service_step(
                agent_log,
                ServiceRun::ReportStopped { exit_code },
                ServiceEvent::StoppedReported(reported),
                run,
                None,
            ),
{
    ServiceRun::Ended(reported)
}

/// `runs` are the places that a service's run passes through as `events` are reported, and
/// `logs` what it writes to the Application log at each of them.
pub open spec fn is_service_trace(
    agent_log: Seq<char>,
    runs: Seq<ServiceRun>,
    events: Seq<ServiceEvent>,
    logs: Seq<Option<LogEvent>>,
) -> bool {
    &&& runs.len() == events.len() + 1
    &&& logs.len() == events.len()
    &&& runs[0] is Register
    &&& forall|i: int|
        0 <= i < events.len() ==> service_step(
            agent_log,
            runs[i],
            #[trigger] events[i],
            runs[i + 1],
            logs[i],
        )
}

impl ServiceEvent {
    /// StartPending was reported.
    pub open spec fn is_starting(self) -> bool {
        self matches ServiceEvent::StartingReported(Ok(_))
    }

    /// The agent's run ended with this exit code.
    pub open spec fn ends_with(self, exit_code: ExitCode) -> bool {
        match self {
            ServiceEvent::AgentEnded(outcome) => outcome_exit_code(outcome) == exit_code,
            ServiceEvent::Parsed(Err(_)) => exit_code == ExitCode::ServiceSpecific(
                EXIT_BAD_ARGUMENTS,
            ),
            _ => false,
        }
    }
}

proof fn lemma_service_trace(
    agent_log: Seq<char>,
    runs: Seq<ServiceRun>,
    events: Seq<ServiceEvent>,
    logs: Seq<Option<LogEvent>>,
)
    requires
        is_service_trace(agent_log, runs, events, logs),
    ensures
        match runs.last() {
            ServiceRun::Register => events.len() == 0,
            ServiceRun::ReportStarting => events.len() == 1,
            ServiceRun::ParseArguments => events.len() == 2 && events[1].is_starting(),
            ServiceRun::RunAgent => events.len() == 3 && events[1].is_starting(),
            ServiceRun::ReportStopping { event, exit_code } => events.len() == 4
                && events[1].is_starting() && events[3].ends_with(exit_code),
            ServiceRun::ReportStopped { exit_code } => events.len() >= 3 && events[1].is_starting()
                && ((events.len() == 3 && events[2].ends_with(exit_code)) || (events.len() == 5
                && events[3].ends_with(exit_code))),
            ServiceRun::Ended(_) => events.len() >= 1,
        },
    decreases events.len(),
{
    if events.len() > 0 {
        let n = events.len() - 1;
        let earlier = runs.drop_last();
        let before = events.drop_last();
        let lines = logs.drop_last();
        assert forall|i: int| 0 <= i < before.len() implies service_step(
            agent_log,
            earlier[i],
            #[trigger] before[i],
            earlier[i + 1],
            lines[i],
        ) by {
            assert(before[i] == events[i]);
        }
        lemma_service_trace(agent_log, earlier, before, lines);
        assert(service_step(agent_log, runs[n], events[n], runs[n + 1], logs[n]));
        assert(earlier.last() == runs[n]);
    }
}

/// The SCM never sees a hung service: once StartPending has been reported, a run that is over
/// has reported Stopped as its last step, with the exit code of what ended it: the agent's
/// own end, a panic included, or a command line that did not parse.
pub proof fn service_always_reports_stopped(
    agent_log: Seq<char>,
    runs: Seq<ServiceRun>,
    events: Seq<ServiceEvent>,
    logs: Seq<Option<LogEvent>>,
    result: Result<(), ApiError>,
    started: int,
)
    requires
        is_service_trace(agent_log, runs, events, logs),
        runs.last() == ServiceRun::Ended(result),
        0 <= started < events.len(),
        events[started].is_starting(),
    ensures
        runs[runs.len() - 2] is ReportStopped,
        events.last() == ServiceEvent::StoppedReported(result),
        runs[runs.len() - 2] matches ServiceRun::ReportStopped { exit_code } && exists|i: int|
            0 <= i < events.len() && (#[trigger] events[i]).ends_with(exit_code),
{
    let n = events.len() - 1;
    let earlier = runs.drop_last();
    let before = events.drop_last();
    let lines = logs.drop_last();
    assert forall|i: int| 0 <= i < before.len() implies service_step(
        agent_log,
        earlier[i],
        #[trigger] before[i],
        earlier[i + 1],
        lines[i],
    ) by {
        assert(before[i] == events[i]);
    }
    lemma_service_trace(agent_log, earlier, before, lines);
    assert(service_step(agent_log, runs[n], events[n], runs[n + 1], logs[n]));
    assert(earlier.last() == runs[n]);
    assert(service_step(agent_log, runs[started], events[started], runs[started + 1], logs[started]));
    if started < n {
        assert(events[2] == before[2] || before.len() <= 2);
        assert(before.len() > 3 ==> events[3] == before[3]);
    }
}

/// The exit code as the SCM's own tools name it.
pub open spec fn exit_code_text(exit_code: ExitCode) -> Seq<char> {
    match exit_code {
        ExitCode::Win32(code) => "Win32("@ + decimal(code as nat) + ")"@,
        ExitCode::ServiceSpecific(code) => "ServiceSpecific("@ + decimal(code as nat) + ")"@,
    }
}

/// The name of a state.
pub open spec fn state_text(state: ServiceState) -> Seq<char> {
    match state {
        ServiceState::Stopped => "Stopped"@,
        ServiceState::StartPending => "StartPending"@,
        ServiceState::StopPending => "StopPending"@,
        ServiceState::Running => "Running"@,
        ServiceState::ContinuePending => "ContinuePending"@,
        ServiceState::PausePending => "PausePending"@,
        ServiceState::Paused => "Paused"@,
    }
}

fn exit_code_string(exit_code: ExitCode) -> (text: String)
    ensures
        text@ == exit_code_text(exit_code),
{
    match exit_code {
        ExitCode::Win32(code) => {
            let mut text = "Win32(".to_owned();
            text.append(decimal_string(code as u64).as_str());
            text.append(")");
            text
        },
        ExitCode::ServiceSpecific(code) => {
            let mut text = "ServiceSpecific(".to_owned();
            text.append(decimal_string(code as u64).as_str());
            text.append(")");
            text
        },
    }
}

fn state_string(state: ServiceState) -> (text: String)
    ensures
        text@ == state_text(state),
{
    match state {
        ServiceState::Stopped => "Stopped".to_owned(),
        ServiceState::StartPending => "StartPending".to_owned(),
        ServiceState::StopPending => "StopPending".to_owned(),
        ServiceState::Running => "Running".to_owned(),
        ServiceState::ContinuePending => "ContinuePending".to_owned(),
        ServiceState::PausePending => "PausePending".to_owned(),
        ServiceState::Paused => "Paused".to_owned(),
    }
}

/// What one look at a service's state means for the wait.
#[derive(Debug, PartialEq, Eq)]
pub enum Awaited {
    /// Look again a little later.
    NotYet,
    /// The wait is over.
    Over(Result<(), ServiceError>),
}

/// One look at a service that is awaited to reach `wanted`: what was `seen`, and whether the
/// time is up.
pub fn wait_for_state(
    wanted: ServiceState,
    seen: Result<(ServiceState, ExitCode), ApiError>,
    time_is_up: bool,
) -> (awaited: Awaited)
    ensures
        match seen {
            Err(err) => awaited == Awaited::Over(Err(ServiceError::Api(err))),
            Ok((state, exit_code)) => if state == wanted {
                awaited == Awaited::Over(Ok(()))
            } else if wanted == ServiceState::Running && state == ServiceState::Stopped {
                awaited matches Awaited::Over(Err(ServiceError::FailedToStart { exit_code: text }))
                    && text@ == exit_code_text(exit_code)
            } else if time_is_up {
                awaited matches Awaited::Over(Err(ServiceError::Timeout { wanted: text })) && text@
                    == state_text(wanted)
            } else {
                awaited is NotYet
            },
        },
        time_is_up ==> awaited is Over,
{
    match seen {
        Err(err) => Awaited::Over(Err(ServiceError::Api(err))),
        Ok((state, exit_code)) => {
            if state == wanted {
                return Awaited::Over(Ok(()));
            }
            if wanted == ServiceState::Running && state == ServiceState::Stopped {
                return Awaited::Over(
                    Err(ServiceError::FailedToStart { exit_code: exit_code_string(exit_code) }),
                );
            }
            if time_is_up {
                return Awaited::Over(
                    Err(ServiceError::Timeout { wanted: state_string(wanted) }),
                );
            }
            Awaited::NotYet
        },
    }
}

/// A call to the SCM that an installation makes and that either succeeds or fails.
#[derive(Debug, Clone, Copy, PartialEq, Eq, Structural)]
pub enum InstallCall {
    /// Connect to the SCM.
    Connect,
    /// Create the service.
    Create,
    /// Open the service that exists already.
    Open,
    /// Update its configuration to the same registration.
    ChangeConfig,
    /// Set the description.
    SetDescription,
    /// Set the recovery policy.
    SetRecovery,
    /// Apply the policy to a non-zero exit as well as to a crash, so that a transient
    /// bootstrap failure recovers on its own.
    SetNonCrash,
    /// Start the service.
    Start,
}

/// An installation, by what has to be done next.
#[derive(Debug)]
pub enum InstallRun {
    /// Make a call.
    Call(InstallCall),
    /// Register the event source, before the first start so even the first lifecycle event
    /// renders.
    RegisterSource,
    /// Read the service's state.
    QueryState,
    /// Wait until the service is running.
    AwaitRunning,
    /// Nothing: the installation is over.
    Ended(Result<(), ServiceError>),
}

/// What the steps of an installation report.
pub enum InstallEvent {
    /// A call was made.
    Called(Result<(), ApiError>),
    /// The event source was registered, or not.
    SourceRegistered(Result<(), ServiceError>),
    /// The state was read, or not.
    Queried(Result<ServiceState, ApiError>),
    /// The wait is over.
    Awaited(Result<(), ServiceError>),
}

/// What follows a call that succeeded.
pub open spec fn after_good_call(call: InstallCall) -> InstallRun {
    match call {
        InstallCall::Connect => InstallRun::Call(InstallCall::Create),
        InstallCall::Create => InstallRun::Call(InstallCall::SetDescription),
        InstallCall::Open => InstallRun::Call(InstallCall::ChangeConfig),
        InstallCall::ChangeConfig => InstallRun::Call(InstallCall::SetDescription),
        InstallCall::SetDescription => InstallRun::Call(InstallCall::SetRecovery),
        InstallCall::SetRecovery => InstallRun::Call(InstallCall::SetNonCrash),
        InstallCall::SetNonCrash => InstallRun::RegisterSource,
        InstallCall::Start => InstallRun::AwaitRunning,
    }
}

/// What follows a call that failed: a service that exists already is updated instead.
pub open spec fn after_bad_call(call: InstallCall, err: ApiError) -> InstallRun {
    if call == InstallCall::Create && err.code == Some(ERROR_SERVICE_EXISTS) {
        InstallRun::Call(InstallCall::Open)
    } else if call == InstallCall::Create && err.code == Some(ERROR_SERVICE_MARKED_FOR_DELETE) {
        InstallRun::Ended(Err(ServiceError::MarkedForDelete))
    } else {
        InstallRun::Ended(Err(ServiceError::Api(err)))
    }
}

/// `after` is where an installation at `before` stands once `event` was reported.
pub open spec fn install_step(before: InstallRun, event: InstallEvent, after: InstallRun) -> bool {
    match (before, event) {
        (InstallRun::Call(call), InstallEvent::Called(result)) => match result {
            Ok(_) => after == after_good_call(call),
            Err(err) => after == after_bad_call(call, err),
        },
        (InstallRun::RegisterSource, InstallEvent::SourceRegistered(result)) => match result {
            Ok(_) => after is QueryState,
            Err(err) => after == InstallRun::Ended(Err(err)),
        },
        (InstallRun::QueryState, InstallEvent::Queried(result)) => match result {
            Ok(state) => after == if state == ServiceState::Stopped {
                InstallRun::Call(InstallCall::Start)
            } else {
                InstallRun::AwaitRunning
            },
            Err(err) => after == InstallRun::Ended(Err(ServiceError::Api(err))),
        },
        (InstallRun::AwaitRunning, InstallEvent::Awaited(result)) => after == InstallRun::Ended(
            result,
        ),
        _ => false,
    }
}

/// After a call to the SCM.
pub fn after_call(call: InstallCall, result: Result<(), ApiError>) -> (run: InstallRun)
    ensures
        install_step(InstallRun::Call(call), InstallEvent::Called(result), run),
{
    match result {
        Ok(_) => match call {
            InstallCall::Connect => InstallRun::Call(InstallCall::Create),
            InstallCall::Create => InstallRun::Call(InstallCall::SetDescription),
            InstallCall::Open => InstallRun::Call(InstallCall::ChangeConfig),
            InstallCall::ChangeConfig => InstallRun::Call(InstallCall::SetDescription),
            InstallCall::SetDescription => InstallRun::Call(InstallCall::SetRecovery),
            InstallCall::SetRecovery => InstallRun::Call(InstallCall::SetNonCrash),
            InstallCall::SetNonCrash => InstallRun::RegisterSource,
            InstallCall::Start => InstallRun::AwaitRunning,
        },
        Err(err) => {
            if call == InstallCall::Create && err.code == Some(ERROR_SERVICE_EXISTS) {
                InstallRun::Call(InstallCall::Open)
            } else if call == InstallCall::Create && err.code == Some(
                ERROR_SERVICE_MARKED_FOR_DELETE,
            ) {
                InstallRun::Ended(Err(ServiceError::MarkedForDelete))
            } else {
                InstallRun::Ended(Err(ServiceError::Api(err)))
            }
        },
    }
}

/// After the attempt to register the event source.
pub fn after_source(registered: Result<(), ServiceError>) -> (run: InstallRun)
    ensures
        install_step(InstallRun::RegisterSource, InstallEvent::SourceRegistered(registered), run),
{
    match registered {
        Ok(_) => InstallRun::QueryState,
        Err(err) => InstallRun::Ended(Err(err)),
    }
}

/// After the attempt to read the service's state. Only a fully stopped service is started: a
/// StartPending one is already on its way.
pub fn after_query(queried: Result<ServiceState, ApiError>) -> (run: InstallRun)
    ensures
        install_step(InstallRun::QueryState, InstallEvent::Queried(queried), run),
{
    match queried {
        Ok(state) => {
            if state == ServiceState::Stopped {
                InstallRun::Call(InstallCall::Start)
            } else {
                InstallRun::AwaitRunning
            }
        },
        Err(err) => InstallRun::Ended(Err(ServiceError::Api(err))),
    }
}

/// After the wait for the service to run.
pub fn after_await(awaited: Result<(), ServiceError>) -> (run: InstallRun)
    ensures
        install_step(InstallRun::AwaitRunning, InstallEvent::Awaited(awaited), run),
{
    InstallRun::Ended(awaited)
}

/// `runs` are the places that an installation passes through as `events` are reported.
pub open spec fn is_install_trace(runs: Seq<InstallRun>, events: Seq<InstallEvent>) -> bool {
    &&& runs.len() == events.len() + 1
    &&& runs[0] == InstallRun::Call(InstallCall::Connect)
    &&& forall|i: int|
        0 <= i < events.len() ==> install_step(runs[i], #[trigger] events[i], runs[i + 1])
}

impl InstallEvent {
    /// The event source was registered.
    pub open spec fn is_source(self) -> bool {
        self matches InstallEvent::SourceRegistered(Ok(_))
    }
}

proof fn lemma_install_trace(runs: Seq<InstallRun>, events: Seq<InstallEvent>)
    requires
        is_install_trace(runs, events),
    ensures
        (runs.last() is QueryState || runs.last() is AwaitRunning || runs.last()
            == InstallRun::Call(InstallCall::Start)) ==> exists|i: int|
            0 <= i < events.len() && (#[trigger] events[i]).is_source(),
        runs.last() == InstallRun::Ended(Ok(())) ==> events.len() > 0 && events.last()
            == InstallEvent::Awaited(Ok(())),
    decreases events.len(),
{
    if events.len() > 0 {
        let n = events.len() - 1;
        let earlier = runs.drop_last();
        let before = events.drop_last();
        assert forall|i: int| 0 <= i < before.len() implies install_step(
            earlier[i],
            #[trigger] before[i],
            earlier[i + 1],
        ) by {
            assert(before[i] == events[i]);
        }
        lemma_install_trace(earlier, before);
        assert(install_step(runs[n], events[n], runs[n + 1]));
        assert(earlier.last() == runs[n]);
        if exists|i: int| 0 <= i < before.len() && (#[trigger] before[i]).is_source() {
            let i = choose|i: int| 0 <= i < before.len() && (#[trigger] before[i]).is_source();
            assert(events[i].is_source());
        }
        assert(events[n].is_source() || !events[n].is_source());
    }
}

/// The event source is registered before the service is started for the first time, and an
/// installation succeeds only once the service has been seen running.
pub proof fn installed_means_running(runs: Seq<InstallRun>, events: Seq<InstallEvent>)
    requires
        is_install_trace(runs, events),
    ensures
        runs.last() == InstallRun::Call(InstallCall::Start) ==> exists|i: int|
            0 <= i < events.len() && (#[trigger] events[i]).is_source(),
        runs.last() == InstallRun::Ended(Ok(())) ==> events.last() == InstallEvent::Awaited(Ok(())),
{
    lemma_install_trace(runs, events);
}

/// A removal, by what has to be done next.
#[derive(Debug)]
pub enum UninstallRun {
    /// Connect to the SCM.
    Connect,
    /// Open the service.
    Open,
    /// Read the service's state.
    QueryState,
    /// Ask the service to stop.
    Stop,
    /// Wait until the service is stopped.
    AwaitStopped {
        /// Why the service refused to stop, if it did. That is not fatal on its own: it may
        /// be stopping already.
        refused: Option<ApiError>,
    },
    /// Delete the service.
    Delete,
    /// Remove the event source's registration.
    UnregisterSource,
    /// Nothing: the removal is over.
    Ended(Result<(), ServiceError>),
}

/// What the steps of a removal report.
pub enum UninstallEvent {
    /// The SCM was connected to, or not.
    Connected(Result<(), ApiError>),
    /// The service was opened, or not.
    Opened(Result<(), ApiError>),
    /// The state was read, or not.
    Queried(Result<ServiceState, ApiError>),
    /// The service took the stop, or not.
    StopSent(Result<(), ApiError>),
    /// The wait is over.
    Awaited(Result<(), ServiceError>),
    /// The service was deleted, or not.
    Deleted(Result<(), ApiError>),
    /// The event source's registration was removed, or not.
    SourceRemoved(Result<(), ServiceError>),
}

/// `after` is where a removal at `before` stands once `event` was reported.
pub open spec fn uninstall_step(
    before: UninstallRun,
    event: UninstallEvent,
    after: UninstallRun,
) -> bool {
    match (before, event) {
        (UninstallRun::Connect, UninstallEvent::Connected(result)) => match result {
            Ok(_) => after is Open,
            Err(err) => after == UninstallRun::Ended(Err(ServiceError::Api(err))),
        },
        (UninstallRun::Open, UninstallEvent::Opened(result)) => match result {
            Ok(_) => after is QueryState,
            Err(err) => after == UninstallRun::Ended(
                Err(
                    if err.code == Some(ERROR_SERVICE_DOES_NOT_EXIST) {
                        ServiceError::NotInstalled
                    } else {
                        ServiceError::Api(err)
                    },
                ),
            ),
        },
        (UninstallRun::QueryState, UninstallEvent::Queried(result)) => match result {
            Ok(state) => after == if state == ServiceState::Stopped {
                UninstallRun::Delete
            } else {
                UninstallRun::Stop
            },
            Err(err) => after == UninstallRun::Ended(Err(ServiceError::Api(err))),
        },
        (UninstallRun::Stop, UninstallEvent::StopSent(result)) => after
            == UninstallRun::AwaitStopped {
            refused: match result {
                Ok(_) => None,
                Err(err) => Some(err),
            },
        },
        (UninstallRun::AwaitStopped { refused }, UninstallEvent::Awaited(result)) => match result {
            Ok(_) => after is Delete,
            Err(err) => after == UninstallRun::Ended(
                Err(
                    match refused {
                        Some(source) => ServiceError::StopFailed { source },
                        None => err,
                    },
                ),
            ),
        },
        (UninstallRun::Delete, UninstallEvent::Deleted(result)) => match result {
            Ok(_) => after is UnregisterSource,
            Err(err) => after == UninstallRun::Ended(Err(ServiceError::Api(err))),
        },
        (UninstallRun::UnregisterSource, UninstallEvent::SourceRemoved(result)) => after
            == UninstallRun::Ended(result),
        _ => false,
    }
}

/// After the attempt to connect to the SCM.
pub fn after_connect(connected: Result<(), ApiError>) -> (run: UninstallRun)
    ensures
        uninstall_step(UninstallRun::Connect, UninstallEvent::Connected(connected), run),
{
    match connected {
        Ok(_) => UninstallRun::Open,
        Err(err) => UninstallRun::Ended(Err(ServiceError::Api(err))),
    }
}

/// After the attempt to open the service. Removing something that was never registered is
/// reported as `NotInstalled`: the raw OS error behind it reads as a failure of the tool
/// rather than as the answer to the question that was asked.
pub fn after_open(opened: Result<(), ApiError>) -> (run: UninstallRun)
    ensures
        uninstall_step(UninstallRun::Open, UninstallEvent::Opened(opened), run),
{
    match opened {
        Ok(_) => UninstallRun::QueryState,
        Err(err) => {
            if err.code == Some(ERROR_SERVICE_DOES_NOT_EXIST) {
                UninstallRun::Ended(Err(ServiceError::NotInstalled))
            } else {
                UninstallRun::Ended(Err(ServiceError::Api(err)))
            }
        },
    }
}

/// After the attempt to read the state of the service that is to be removed.
pub fn after_query_for_removal(queried: Result<ServiceState, ApiError>) -> (run: UninstallRun)
    ensures
        uninstall_step(UninstallRun::QueryState, UninstallEvent::Queried(queried), run),
{
    match queried {
        Ok(state) => {
            if state == ServiceState::Stopped {
                UninstallRun::Delete
            } else {
                UninstallRun::Stop
            }
        },
        Err(err) => UninstallRun::Ended(Err(ServiceError::Api(err))),
    }
}

/// After the attempt to stop the service.
pub fn after_stop(sent: Result<(), ApiError>) -> (run: UninstallRun)
    ensures
        uninstall_step(UninstallRun::Stop, UninstallEvent::StopSent(sent), run),
{
    match sent {
        Ok(_) => UninstallRun::AwaitStopped { refused: None },
        Err(err) => UninstallRun::AwaitStopped { refused: Some(err) },
    }
}

/// After the wait for the service to stop. If it never did, a refused stop is the useful
/// diagnostic.
pub fn after_await_stopped(
    refused: Option<ApiError>,
    awaited: Result<(), ServiceError>,
) -> (run: UninstallRun)
    ensures
        uninstall_step(
            UninstallRun::AwaitStopped { refused },
            UninstallEvent::Awaited(awaited),
            run,
        ),
{
    match awaited {
        Ok(_) => UninstallRun::Delete,
        Err(err) => match refused {
            Some(source) => UninstallRun::Ended(Err(ServiceError::StopFailed { source })),
            None => UninstallRun::Ended(Err(err)),
        },
    }
}

/// After the attempt to delete the service.
pub fn after_delete(deleted: Result<(), ApiError>) -> (run: UninstallRun)
    ensures
        uninstall_step(UninstallRun::Delete, UninstallEvent::Deleted(deleted), run),
{
    match deleted {
        Ok(_) => UninstallRun::UnregisterSource,
        Err(err) => UninstallRun::Ended(Err(ServiceError::Api(err))),
    }
}

/// After the attempt to remove the event source's registration.
pub fn after_unregister(removed: Result<(), ServiceError>) -> (run: UninstallRun)
    ensures
        uninstall_step(UninstallRun::UnregisterSource, UninstallEvent::SourceRemoved(removed), run),
{
    UninstallRun::Ended(removed)
}

/// `runs` are the places that a removal passes through as `events` are reported.
pub open spec fn is_uninstall_trace(runs: Seq<UninstallRun>, events: Seq<UninstallEvent>) -> bool {
    &&& runs.len() == events.len() + 1
    &&& runs[0] is Connect
    &&& forall|i: int|
        0 <= i < events.len() ==> uninstall_step(runs[i], #[trigger] events[i], runs[i + 1])
}

/// The service was seen stopped.
pub open spec fn is_seen_stopped(event: UninstallEvent) -> bool {
    match event {
        UninstallEvent::Queried(result) => result == Ok::<ServiceState, ApiError>(
            ServiceState::Stopped,
        ),
        UninstallEvent::Awaited(result) => result is Ok,
        _ => false,
    }
}

/// Only a service that was just seen stopped is deleted, and the event source goes only after
/// the service has gone.
pub proof fn only_a_stopped_service_is_deleted(
    runs: Seq<UninstallRun>,
    events: Seq<UninstallEvent>,
)
    requires
        is_uninstall_trace(runs, events),
    ensures
        runs.last() is Delete ==> is_seen_stopped(events.last()),
        runs.last() is UnregisterSource ==> (events.last() matches UninstallEvent::Deleted(Ok(_))),
        runs.last() == UninstallRun::Ended(Ok(())) ==> events.last()
            == UninstallEvent::SourceRemoved(Ok(())),
{
    if events.len() > 0 {
        let n = events.len() - 1;
        assert(uninstall_step(runs[n], events[n], runs[n + 1]));
    }
}

} // verus!
