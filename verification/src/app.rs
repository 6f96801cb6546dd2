//! Process-level orchestration: the order of the bootstrap, what a run's end means for the
//! process, and the privilege policy shared by all commands.

use vstd::prelude::*;

use std::path::PathBuf;

use crate::cli::Cli;
use crate::config::{config_error_text, Config, ConfigError};
use crate::logging::{logging_error_chain, Level, LoggingError};
use crate::paths;
use crate::paths::path_text;
use crate::platform::{platform_error_chain, platform_error_text, IoError, PlatformError};
use crate::service::{
    is_access_denied, service_error_chain, service_error_text, Dispatch, ServiceError, SERVICE_NAME,
};
use crate::text::same_text;

verus! {

/// Success.
pub const EXIT_OK: u8 = 0;

/// Runtime failure.
pub const EXIT_FAILURE: u8 = 1;

/// Command-line usage error (clap uses the same value).
pub const EXIT_USAGE: u8 = 2;

/// Not running with the required privilege, or elevation was declined.
pub const EXIT_PRIVILEGE: u8 = 3;

/// The requested operation has no implementation on this platform.
pub const EXIT_UNSUPPORTED: u8 = 4;

/// Another agent instance already owns the log directory.
pub const EXIT_ALREADY_RUNNING: u8 = 5;

/// Explanation printed when the relaunch failed for a reason we cannot interpret; the
/// error's own detail is appended to it.
pub const RELAUNCH_FAILED: &'static str = "could not relaunch with elevation";

/// What a relaunch attempt means: the exit code, and the explanation where one is due. The
/// elevated run's own exit code is passed through when it fits in a status byte.
pub open spec fn relaunch_policy(result: Result<i32, PlatformError>) -> (u8, Option<Seq<char>>) {
    match result {
        Ok(code) => if 0 <= code <= 255 {
            (code as u8, None)
        } else {
            (EXIT_FAILURE, None)
        },
        Err(PlatformError::ElevationDeclined) => (
            EXIT_PRIVILEGE,
            Some("administrator approval was declined"@),
        ),
        Err(PlatformError::ElevationBlockedByPolicy) => (
            EXIT_PRIVILEGE,
            Some(
                "elevation is blocked by policy for this account; run from an administrator account"@,
            ),
        ),
        Err(PlatformError::Unsupported(_)) => (
            EXIT_PRIVILEGE,
            Some("this command needs root privileges; run it with sudo"@),
        ),
        Err(_) => (EXIT_FAILURE, Some(RELAUNCH_FAILED@)),
    }
}

/// Exit code for a relaunch attempt, plus the line to print on stderr (if any).
///
/// Pure: the whole policy of the privileged relaunch is decided here and nothing else.
pub fn exit_code_for_relaunch(result: Result<i32, PlatformError>) -> (verdict: (
    u8,
    Option<&'static str>,
))
    ensures
        verdict.0 == relaunch_policy(result).0,
        match verdict.1 {
            Some(message) => relaunch_policy(result).1 == Some(message@),
            None => relaunch_policy(result).1 is None,
        },
{
    match result {
        Ok(code) => {
            if 0 <= code && code <= 255 {
                (code as u8, None)
            } else {
                (EXIT_FAILURE, None)
            }
        },
        Err(PlatformError::ElevationDeclined) => (
            EXIT_PRIVILEGE,
            Some("administrator approval was declined"),
        ),
        Err(PlatformError::ElevationBlockedByPolicy) => (
            EXIT_PRIVILEGE,
            Some(
                "elevation is blocked by policy for this account; run from an administrator account",
            ),
        ),
        Err(PlatformError::Unsupported(_)) => (
            EXIT_PRIVILEGE,
            Some("this command needs root privileges; run it with sudo"),
        ),
        Err(_) => (EXIT_FAILURE, Some(RELAUNCH_FAILED)),
    }
}

/// The stderr line for a relaunch outcome: the interpreted message alone, or the
/// uninterpreted-failure message with the error's own detail appended.
pub fn relaunch_report(message: Option<&'static str>, detail: Option<String>) -> (line: Option<
    String,
>)
    ensures
        match message {
            Some(message) => {
                &&& line matches Some(text)
                &&& text@ == (match detail {
                    Some(detail) => if message@ == RELAUNCH_FAILED@ {
                        message@ + ": "@ + detail@
                    } else {
                        message@
                    },
                    None => message@,
                })
            },
            None => line is None,
        },
{
    match (message, detail) {
        (Some(message), Some(detail)) => {
            let mut text = message.to_owned();
            if same_text(message, RELAUNCH_FAILED) {
                text.append(": ");
                text.append(detail.as_str());
            }
            Some(text)
        },
        (Some(message), None) => Some(message.to_owned()),
        (None, _) => None,
    }
}

/// The exit code and the stderr line of a whole relaunch attempt.
pub fn relaunch_outcome(result: Result<i32, PlatformError>) -> (outcome: (u8, Option<String>))
    ensures
        settles_relaunch(outcome.0, outcome.1, result),
{
    // The mapping consumes the result, so the error's own detail is captured first.
    let detail = match &result {
        Ok(_) => None,
        Err(err) => Some(err.message()),
    };
    let (code, message) = exit_code_for_relaunch(result);
    (code, relaunch_report(message, detail))
}

/// What the privilege check decides.
#[derive(Debug, PartialEq, Eq)]
pub enum Privilege {
    /// Go on.
    Granted,
    /// Relaunch with privilege and exit with what comes of it.
    Relaunch,
    /// Print the line and exit.
    Unknown {
        /// The exit code.
        code: u8,
        /// The line for stderr.
        line: String,
    },
}

/// Ensure we run privileged, given what the platform says of the present privilege.
pub fn require_privilege(privileged: Result<bool, PlatformError>) -> (privilege: Privilege)
    ensures
        match privileged {
            Ok(true) => privilege is Granted,
            Ok(false) => privilege is Relaunch,
            Err(err) => privilege matches Privilege::Unknown { code, line } && code == EXIT_FAILURE
                && line@ == "cannot determine privilege level: "@ + platform_error_text(err),
        },
{
    match privileged {
        Ok(true) => Privilege::Granted,
        Ok(false) => Privilege::Relaunch,
        Err(err) => {
            let mut line = "cannot determine privilege level: ".to_owned();
            line.append(err.message().as_str());
            Privilege::Unknown { code: EXIT_FAILURE, line }
        },
    }
}

/// Why a run of the agent ended before its loop did.
#[derive(Debug)]
pub enum AgentError {
    /// The agent's own executable could not be located.
    LocatingExecutable(IoError),
    /// The configuration is not valid.
    Config(ConfigError),
    /// The log directory could not be secured.
    SecuringLogDir {
        /// The directory.
        path: String,
        /// What went wrong.
        source: PlatformError,
    },
    /// The instance lock could not be taken.
    AcquiringLock(PlatformError),
    /// Logging could not be set up.
    InitialisingLogging(LoggingError),
    /// The child log could not be secured.
    SecuringChildLog {
        /// The child log.
        path: String,
        /// What went wrong.
        source: PlatformError,
    },
    /// The child log's protection could not be read back.
    ReadingProtection(PlatformError),
    /// The async runtime could not be built.
    BuildingRuntime(IoError),
}

/// The text of an agent error, with its causes.
pub open spec fn agent_error_text(err: AgentError) -> Seq<char> {
    match err {
        AgentError::LocatingExecutable(source) => "locating own executable: "@ + source.message@,
        AgentError::Config(source) => config_error_text(source),
        AgentError::SecuringLogDir { path, source } => "securing log directory "@ + path@ + ": "@
            + platform_error_chain(source),
        AgentError::AcquiringLock(source) => "acquiring the instance lock: "@
            + platform_error_chain(source),
        AgentError::InitialisingLogging(source) => "initialising logging: "@
            + logging_error_chain(source),
        AgentError::SecuringChildLog { path, source } => "securing child log "@ + path@ + ": "@
            + platform_error_chain(source),
        AgentError::ReadingProtection(source) => "reading child log protection: "@
            + platform_error_chain(source),
        AgentError::BuildingRuntime(source) => "building async runtime: "@ + source.message@,
    }
}

/// The platform error behind an agent error, where there is one.
pub open spec fn platform_cause(err: AgentError) -> Option<PlatformError> {
    match err {
        AgentError::SecuringLogDir { path, source } => Some(source),
        AgentError::AcquiringLock(source) => Some(source),
        AgentError::SecuringChildLog { path, source } => Some(source),
        AgentError::ReadingProtection(source) => Some(source),
        _ => None,
    }
}

impl AgentError {
    /// The error and its causes as one line of text.
    pub fn message(&self) -> (text: String)
        ensures
            text@ == agent_error_text(*self),
    {
        match self {
            AgentError::LocatingExecutable(source) => {
                let mut text = "locating own executable: ".to_owned();
                text.append(source.message.as_str());
                text
            },
            AgentError::Config(source) => source.message(),
            AgentError::SecuringLogDir { path, source } => {
                let mut text = "securing log directory ".to_owned();
                text.append(path.as_str());
                text.append(": ");
                text.append(source.chain().as_str());
                text
            },
            AgentError::AcquiringLock(source) => {
                let mut text = "acquiring the instance lock: ".to_owned();
                text.append(source.chain().as_str());
                text
            },
            AgentError::InitialisingLogging(source) => {
                let mut text = "initialising logging: ".to_owned();
                text.append(source.chain().as_str());
                text
            },
            AgentError::SecuringChildLog { path, source } => {
                let mut text = "securing child log ".to_owned();
                text.append(path.as_str());
                text.append(": ");
                text.append(source.chain().as_str());
                text
            },
            AgentError::ReadingProtection(source) => {
                let mut text = "reading child log protection: ".to_owned();
                text.append(source.chain().as_str());
                text
            },
            AgentError::BuildingRuntime(source) => {
                let mut text = "building async runtime: ".to_owned();
                text.append(source.message.as_str());
                text
            },
        }
    }

    /// The exit code of an interactive run that ended with this error.
    pub fn exit_code(&self) -> (code: u8)
        ensures
            code == (if platform_cause(*self) matches Some(PlatformError::AlreadyRunning { .. }) {
                EXIT_ALREADY_RUNNING
            } else {
                EXIT_FAILURE
            }),
    {
        let source = match self {
            AgentError::SecuringLogDir { source, .. } => source,
            AgentError::AcquiringLock(source) => source,
            AgentError::SecuringChildLog { source, .. } => source,
            AgentError::ReadingProtection(source) => source,
            _ => {
                return EXIT_FAILURE;
            },
        };
        match source {
            PlatformError::AlreadyRunning { .. } => EXIT_ALREADY_RUNNING,
            _ => EXIT_FAILURE,
        }
    }
}

/// CLI plus platform defaults. `exe` is where the agent's own executable was found.
pub fn resolve_config(
    cli: &Cli,
    exe: Result<PathBuf, IoError>,
    default_log_dir: PathBuf,
    child_binary_name: &str,
) -> (config: Result<Config, AgentError>)
    ensures
        match exe {
            Err(err) => config == Err::<Config, AgentError>(AgentError::LocatingExecutable(err)),
            Ok(exe) => match config {
                Ok(cfg) => cfg.follows(*cli, exe, default_log_dir, child_binary_name@),
                Err(err) => cli.child_timeout_secs >= cli.period_secs && err == AgentError::Config(
                    ConfigError::TimeoutNotBelowPeriod {
                        timeout: cli.child_timeout_secs,
                        period: cli.period_secs,
                    },
                ),
            },
        },
{
    match exe {
        Err(err) => Err(AgentError::LocatingExecutable(err)),
        Ok(exe) => match Config::resolve(cli, &exe, default_log_dir, child_binary_name) {
            Ok(cfg) => Ok(cfg),
            Err(err) => Err(AgentError::Config(err)),
        },
    }
}

/// A line that a run writes to the agent log around its loop.
#[derive(Debug, PartialEq, Eq)]
pub enum AgentRecord {
    /// The bootstrap failed with logging already set up.
    BootstrapFailed {
        /// The error's text, with its causes.
        error: String,
    },
    /// The run is about to start its loop.
    Starting {
        /// Whether it was started from a shell or as a service.
        mode: &'static str,
        /// The child binary.
        child: String,
        /// The child log.
        child_log: String,
        /// How the child log is protected.
        protection: String,
        /// The time between cycles, in whole seconds.
        period_secs: u64,
        /// The time a child has, in whole seconds.
        child_timeout_secs: u64,
    },
    /// The run has stopped.
    Stopped,
}

/// The level of a record.
pub open spec fn agent_record_level(record: AgentRecord) -> Level {
    match record {
        AgentRecord::BootstrapFailed { .. } => Level::Error,
        AgentRecord::Starting { .. } => Level::Info,
        AgentRecord::Stopped => Level::Info,
    }
}

/// The message of a record.
pub open spec fn agent_record_message(record: AgentRecord) -> Seq<char> {
    match record {
        AgentRecord::BootstrapFailed { .. } => "bootstrap failed"@,
        AgentRecord::Starting { .. } => "flamingo-agent starting"@,
        AgentRecord::Stopped => "flamingo-agent stopped"@,
    }
}

impl AgentRecord {
    /// The level at which the record is logged.
    pub fn level(&self) -> (level: Level)
        ensures
            level == agent_record_level(*self),
    {
        match self {
            AgentRecord::BootstrapFailed { .. } => Level::Error,
            AgentRecord::Starting { .. } => Level::Info,
            AgentRecord::Stopped => Level::Info,
        }
    }

    /// The message of the record, without its fields.
    pub fn message(&self) -> (message: &'static str)
        ensures
            message@ == agent_record_message(*self),
    {
        match self {
            AgentRecord::BootstrapFailed { .. } => "bootstrap failed",
            AgentRecord::Starting { .. } => "flamingo-agent starting",
            AgentRecord::Stopped => "flamingo-agent stopped",
        }
    }
}

/// A run of the agent, by what has to be done next.
#[derive(Debug)]
pub enum AgentRun {
    /// Create and lock the log directory.
    SecureDir,
    /// Take the lock that keeps a second instance out, and hold it for the whole run. It
    /// comes before the agent log is opened, so a second instance never writes a line into
    /// the first one's logs.
    AcquireLock,
    /// Open the agent log and route panics into it.
    InitLogging,
    /// Create and lock the child log.
    SecureChildLog,
    /// Read back how the child log is protected.
    DescribeChildLog,
    /// Build the async runtime.
    BuildRuntime,
    /// Report that the run is ready, run the loop until it ends, and shut the runtime down.
    RunLoop,
    /// Nothing: the run is over.
    Ended(Result<(), AgentError>),
}

/// What the steps of a run report.
pub enum AgentEvent {
    /// The log directory was secured, or not.
    DirSecured(Result<(), PlatformError>),
    /// The instance lock was taken, or not.
    Locked(Result<(), PlatformError>),
    /// Logging was set up, or not.
    LoggingReady(Result<(), LoggingError>),
    /// The child log was secured, or not.
    ChildLogSecured(Result<(), PlatformError>),
    /// The child log's protection was read back, or not.
    Described(Result<String, PlatformError>),
    /// The async runtime was built, or not.
    RuntimeBuilt(Result<(), IoError>),
    /// The loop ended and the runtime was shut down.
    LoopEnded,
}

/// `record` announces a run with `cfg` whose child log has the given protection.
pub open spec fn announces(
    record: AgentRecord,
    cfg: Config,
    interactive: bool,
    protection_text: String,
) -> bool {
    &&& record matches AgentRecord::Starting {
        mode,
        child,
        child_log,
        protection,
        period_secs,
        child_timeout_secs,
    }
    &&& mode@ == (if interactive {
        "interactive"@
    } else {
        "service"@
    })
    &&& child@ == path_text(cfg.child_path)
    &&& child_log@ == path_text(cfg.child_log)
    &&& protection == protection_text
    &&& period_secs == cfg.period.secs
    &&& child_timeout_secs == cfg.child_timeout.secs
}

/// `record` reports that the bootstrap failed with `err`.
pub open spec fn reports_failure(record: Option<AgentRecord>, err: AgentError) -> bool {
    &&& record matches Some(AgentRecord::BootstrapFailed { error })
    &&& error@ == agent_error_text(err)
}

/// `after` is where a run at `before` stands once `event` was reported, and `record` the line
/// that it logs on the way. From the moment that logging exists, a failure to protect the
/// child log is logged before it ends the run: as a service, the agent has no console.
pub open spec fn agent_step(
    cfg: Config,
    interactive: bool,
    before: AgentRun,
    event: AgentEvent,
    after: AgentRun,
    record: Option<AgentRecord>,
) -> bool {
    match (before, event) {
        (AgentRun::SecureDir, AgentEvent::DirSecured(result)) => record is None && match result {
            Ok(_) => after is AcquireLock,
            Err(err) => after matches AgentRun::Ended(
                Err(AgentError::SecuringLogDir { path, source }),
            ) && path@ == path_text(cfg.log_dir) && source == err,
        },
        (AgentRun::AcquireLock, AgentEvent::Locked(result)) => record is None && match result {
            Ok(_) => after is InitLogging,
            Err(err) => after == AgentRun::Ended(Err(AgentError::AcquiringLock(err))),
        },
        (AgentRun::InitLogging, AgentEvent::LoggingReady(result)) => record is None && match result {
            Ok(_) => after is SecureChildLog,
            Err(err) => after == AgentRun::Ended(Err(AgentError::InitialisingLogging(err))),
        },
        (AgentRun::SecureChildLog, AgentEvent::ChildLogSecured(result)) => match result {
            Ok(_) => after is DescribeChildLog && record is None,
            Err(err) => {
                &&& after matches AgentRun::Ended(Err(failure))
                &&& reports_failure(record, failure)
                &&& failure matches AgentError::SecuringChildLog { path, source }
                &&& path@ == path_text(cfg.child_log)
                &&& source == err
            },
        },
        (AgentRun::DescribeChildLog, AgentEvent::Described(result)) => match result {
            Ok(protection) => {
                &&& after is BuildRuntime
                &&& record matches Some(line)
                &&& announces(line, cfg, interactive, protection)
            },
            Err(err) => after == AgentRun::Ended(Err(AgentError::ReadingProtection(err)))
                && reports_failure(record, AgentError::ReadingProtection(err)),
        },
        (AgentRun::BuildRuntime, AgentEvent::RuntimeBuilt(result)) => record is None && match result {
            Ok(_) => after is RunLoop,
            Err(err) => after == AgentRun::Ended(Err(AgentError::BuildingRuntime(err))),
        },
        (AgentRun::RunLoop, AgentEvent::LoopEnded) => after == AgentRun::Ended(Ok(())) && record
            == Some(AgentRecord::Stopped),
        _ => false,
    }
}

/// After the attempt to secure the log directory.
pub fn after_secure_dir(cfg: &Config, secured: Result<(), PlatformError>) -> (run: AgentRun)
    ensures
        match secured {
            Ok(_) => run is AcquireLock,
            Err(err) => run matches AgentRun::Ended(
                Err(AgentError::SecuringLogDir { path, source }),
            ) && path@ == path_text(cfg.log_dir) && source == err,
        },
        forall|interactive: bool| #[trigger]
            agent_step(
                *cfg,
                interactive,
                AgentRun::SecureDir,
                AgentEvent::DirSecured(secured),
                run,
                None,
            ),
{
    match secured {
        Ok(_) => AgentRun::AcquireLock,
        Err(source) => AgentRun::Ended(
            Err(AgentError::SecuringLogDir { path: paths::display(&cfg.log_dir), source }),
        ),
    }
}

/// After the attempt to take the instance lock.
pub fn after_lock(locked: Result<(), PlatformError>) -> (run: AgentRun)
    ensures
        forall|cfg: Config, interactive: bool| #[trigger]
            agent_step(
                cfg,
                interactive,
                AgentRun::AcquireLock,
                AgentEvent::Locked(locked),
                run,
                None,
            ),
{
    match locked {
        Ok(_) => AgentRun::InitLogging,
        Err(source) => AgentRun::Ended(Err(AgentError::AcquiringLock(source))),
    }
}

/// After the attempt to set logging up.
pub fn after_logging(ready: Result<(), LoggingError>) -> (run: AgentRun)
    ensures
        forall|cfg: Config, interactive: bool| #[trigger]
            agent_step(
                cfg,
                interactive,
                AgentRun::InitLogging,
                AgentEvent::LoggingReady(ready),
                run,
                None,
            ),
{
    match ready {
        Ok(_) => AgentRun::SecureChildLog,
        Err(source) => AgentRun::Ended(Err(AgentError::InitialisingLogging(source))),
    }
}

/// After the attempt to secure the child log.
pub fn after_secure_child_log(cfg: &Config, secured: Result<(), PlatformError>) -> (turn: (
    AgentRun,
    Option<AgentRecord>,
))
    ensures
        match secured {
            Ok(_) => turn.0 is DescribeChildLog && turn.1 is None,
            Err(err) => turn.0 matches AgentRun::Ended(
                Err(AgentError::SecuringChildLog { path, source }),
            ) && path@ == path_text(cfg.child_log) && source == err && turn.1 is Some,
        },
        forall|interactive: bool| #[trigger]
            agent_step(
                *cfg,
                interactive,
                AgentRun::SecureChildLog,
                AgentEvent::ChildLogSecured(secured),
                turn.0,
                turn.1,
            ),
{
    match secured {
        Ok(_) => (AgentRun::DescribeChildLog, None),
        Err(source) => {
            let err = AgentError::SecuringChildLog { path: paths::display(&cfg.child_log), source };
            let record = AgentRecord::BootstrapFailed { error: err.message() };
            (AgentRun::Ended(Err(err)), Some(record))
        },
    }
}

/// After the attempt to read the child log's protection back.
pub fn after_describe(
    cfg: &Config,
    interactive: bool,
    described: Result<String, PlatformError>,
) -> (turn: (AgentRun, Option<AgentRecord>))
    ensures
        agent_step(
            *cfg,
            interactive,
            AgentRun::DescribeChildLog,
            AgentEvent::Described(described),
            turn.0,
            turn.1,
        ),
{
    match described {
        Ok(protection) => {
            let record = AgentRecord::Starting {
                mode: if interactive {
                    "interactive"
                } else {
                    "service"
                },
                child: paths::display(&cfg.child_path),
                child_log: paths::display(&cfg.child_log),
                protection,
                period_secs: cfg.period.secs,
                child_timeout_secs: cfg.child_timeout.secs,
            };
            (AgentRun::BuildRuntime, Some(record))
        },
        Err(source) => {
            let err = AgentError::ReadingProtection(source);
            let record = AgentRecord::BootstrapFailed { error: err.message() };
            (AgentRun::Ended(Err(err)), Some(record))
        },
    }
}

/// After the attempt to build the async runtime.
pub fn after_runtime(built: Result<(), IoError>) -> (run: AgentRun)
    ensures
        forall|cfg: Config, interactive: bool| #[trigger]
            agent_step(
                cfg,
                interactive,
                AgentRun::BuildRuntime,
                AgentEvent::RuntimeBuilt(built),
                run,
                None,
            ),
{
    match built {
        Ok(_) => AgentRun::RunLoop,
        Err(source) => AgentRun::Ended(Err(AgentError::BuildingRuntime(source))),
    }
}

/// After the loop.
pub fn after_loop() -> (turn: (AgentRun, Option<AgentRecord>))
    ensures
        forall|cfg: Config, interactive: bool| #[trigger]
            agent_step(
                cfg,
                interactive,
                AgentRun::RunLoop,
                AgentEvent::LoopEnded,
                turn.0,
                turn.1,
            ),
{
    (AgentRun::Ended(Ok(())), Some(AgentRecord::Stopped))
}

/// What an interactive run's end means: the exit code, and the line for stderr, if any.
pub fn interactive_outcome(result: Result<(), AgentError>) -> (outcome: (u8, Option<String>))
    ensures
        settles_run(outcome.0, outcome.1, result),
{
    match result {
        Ok(_) => (EXIT_OK, None),
        Err(err) => (err.exit_code(), Some(err.message())),
    }
}

/// A run from a shell, by what has to be done next.
#[derive(Debug)]
pub enum ShellRun {
    /// Ask the platform for the present privilege.
    CheckPrivilege,
    /// Relaunch with privilege and wait for that instance.
    Relaunch,
    /// Have Ctrl-C cancel the run.
    InstallHandler,
    /// Run the agent until it ends.
    RunAgent,
    /// Print the line, if any, on stderr and exit.
    Exit {
        /// The exit code.
        code: u8,
        /// The line for stderr, if any.
        line: Option<String>,
    },
}

/// What the steps of a run from a shell report.
pub enum ShellEvent {
    /// The privilege was determined, or not.
    Checked(Result<bool, PlatformError>),
    /// The relaunched instance ended, or could not be started.
    Relaunched(Result<i32, PlatformError>),
    /// Ctrl-C was hooked up, or not, with the error's text.
    Hooked(Result<(), String>),
    /// The agent's run ended.
    AgentEnded(Result<(), AgentError>),
}

/// `code` and `line` are what is left to do for a relaunch that ended with `result`.
pub open spec fn settles_relaunch(
    code: u8,
    line: Option<String>,
    result: Result<i32, PlatformError>,
) -> bool {
    &&& code == relaunch_policy(result).0
    &&& match relaunch_policy(result).1 {
        Some(message) => {
            &&& line matches Some(text)
            &&& text@ == (match result {
                Err(err) => if message == RELAUNCH_FAILED@ {
                    message + ": "@ + platform_error_text(err)
                } else {
                    message
                },
                Ok(_) => message,
            })
        },
        None => line is None,
    }
}

/// `code` and `line` are what is left to do for an agent's run that ended with `result`.
pub open spec fn settles_run(code: u8, line: Option<String>, result: Result<(), AgentError>) -> bool {
    match result {
        Ok(_) => code == EXIT_OK && line is None,
        Err(err) => {
            &&& code == (if platform_cause(err) matches Some(PlatformError::AlreadyRunning { .. }) {
                EXIT_ALREADY_RUNNING
            } else {
                EXIT_FAILURE
            })
            &&& line matches Some(text)
            &&& text@ == agent_error_text(err)
        },
    }
}

/// `after` is where a run from a shell stands once `event` was reported.
pub open spec fn shell_step(before: ShellRun, event: ShellEvent, after: ShellRun) -> bool {
    match (before, event) {
        (ShellRun::CheckPrivilege, ShellEvent::Checked(privileged)) => match privileged {
            Ok(true) => after is InstallHandler,
            Ok(false) => after is Relaunch,
            Err(err) => after matches ShellRun::Exit { code, line: Some(text) } && code
                == EXIT_FAILURE && text@ == "cannot determine privilege level: "@
                + platform_error_text(err),
        },
        (ShellRun::Relaunch, ShellEvent::Relaunched(result)) => after matches ShellRun::Exit {
            code,
            line,
        } && settles_relaunch(code, line, result),
        (ShellRun::InstallHandler, ShellEvent::Hooked(hooked)) => match hooked {
            Ok(_) => after is RunAgent,
            Err(error) => after matches ShellRun::Exit { code, line: Some(text) } && code
                == EXIT_FAILURE && text@ == "cannot install Ctrl-C handler: "@ + error@,
        },
        (ShellRun::RunAgent, ShellEvent::AgentEnded(result)) => after matches ShellRun::Exit {
            code,
            line,
        } && settles_run(code, line, result),
        _ => false,
    }
}

/// After the privilege check.
pub fn after_check(privileged: Result<bool, PlatformError>) -> (run: ShellRun)
    ensures
        shell_step(ShellRun::CheckPrivilege, ShellEvent::Checked(privileged), run),
{
    match require_privilege(privileged) {
        Privilege::Granted => ShellRun::InstallHandler,
        Privilege::Relaunch => ShellRun::Relaunch,
        Privilege::Unknown { code, line } => ShellRun::Exit { code, line: Some(line) },
    }
}

/// After the relaunched instance.
pub fn after_relaunch(result: Result<i32, PlatformError>) -> (run: ShellRun)
    ensures
        shell_step(ShellRun::Relaunch, ShellEvent::Relaunched(result), run),
{
    let (code, line) = relaunch_outcome(result);
    ShellRun::Exit { code, line }
}

/// After the attempt to hook up Ctrl-C.
pub fn after_hook(hooked: Result<(), String>) -> (run: ShellRun)
    ensures
        shell_step(ShellRun::InstallHandler, ShellEvent::Hooked(hooked), run),
{
    match hooked {
        Ok(_) => ShellRun::RunAgent,
        Err(error) => {
            let mut line = "cannot install Ctrl-C handler: ".to_owned();
            line.append(error.as_str());
            ShellRun::Exit { code: EXIT_FAILURE, line: Some(line) }
        },
    }
}

/// After the agent's run.
pub fn after_run(result: Result<(), AgentError>) -> (run: ShellRun)
    ensures
        shell_step(ShellRun::RunAgent, ShellEvent::AgentEnded(result), run),
{
    let (code, line) = interactive_outcome(result);
    ShellRun::Exit { code, line }
}

/// `runs` are the places that a run from a shell passes through as `events` are reported.
pub open spec fn is_shell_trace(runs: Seq<ShellRun>, events: Seq<ShellEvent>) -> bool {
    &&& runs.len() == events.len() + 1
    &&& runs[0] is CheckPrivilege
    &&& forall|i: int|
        0 <= i < events.len() ==> shell_step(runs[i], #[trigger] events[i], runs[i + 1])
}

/// From a shell, the agent only ever runs with privilege; an unprivileged process does no more
/// than relaunch itself.
pub proof fn agent_runs_only_privileged(runs: Seq<ShellRun>, events: Seq<ShellEvent>, at: int)
    requires
        is_shell_trace(runs, events),
        0 <= at < runs.len(),
        runs[at] is RunAgent,
    ensures
        events[0] == ShellEvent::Checked(Ok(true)),
{
    assert(at > 0);
    assert(shell_step(runs[at - 1], events[at - 1], runs[at]));
    assert(at > 1);
    assert(shell_step(runs[at - 2], events[at - 2], runs[at - 1]));
    if at > 2 {
        assert(shell_step(runs[at - 3], events[at - 3], runs[at - 2]));
    }
}

/// What a command comes to: an exit code and what it prints.
#[derive(Debug, PartialEq, Eq)]
pub struct Verdict {
    /// The exit code.
    pub code: u8,
    /// The line for stdout, if any.
    pub stdout: Option<String>,
    /// The line for stderr, if any.
    pub stderr: Option<String>,
}

/// The exit code of a service management failure.
pub open spec fn service_exit_code(err: ServiceError) -> u8 {
    match err {
        ServiceError::Unsupported => EXIT_UNSUPPORTED,
        _ => EXIT_FAILURE,
    }
}

/// The line for a failed service management command: the error with its causes and, where
/// rights were missing, what to do about it.
pub open spec fn management_failure_text(err: ServiceError) -> Seq<char> {
    if is_access_denied(err) {
        service_error_chain(err) + "; run as administrator"@
    } else {
        service_error_chain(err)
    }
}

/// `verdict` reports a service management command's `result`, with `done` behind the
/// service's name for a success.
pub open spec fn reports_management(
    verdict: Verdict,
    result: Result<(), ServiceError>,
    done: Seq<char>,
) -> bool {
    match result {
        Ok(_) => {
            &&& verdict.code == EXIT_OK
            &&& verdict.stderr is None
            &&& verdict.stdout matches Some(line)
            &&& line@ == SERVICE_NAME@ + done
        },
        Err(err) => {
            &&& verdict.code == service_exit_code(err)
            &&& verdict.stdout is None
            &&& verdict.stderr matches Some(line)
            &&& line@ == management_failure_text(err)
        },
    }
}

fn management_verdict(result: Result<(), ServiceError>, done: &str) -> (verdict: Verdict)
    ensures
        reports_management(verdict, result, done@),
{
    match result {
        Ok(_) => {
            let mut line = SERVICE_NAME.to_owned();
            line.append(done);
            Verdict { code: EXIT_OK, stdout: Some(line), stderr: None }
        },
        Err(err) => {
            let code = match &err {
                ServiceError::Unsupported => EXIT_UNSUPPORTED,
                _ => EXIT_FAILURE,
            };
            let mut line = err.chain();
            if err.access_denied() {
                line.append("; run as administrator");
            }
            Verdict { code, stdout: None, stderr: Some(line) }
        },
    }
}

/// What `--install` comes to.
pub fn install_verdict(result: Result<(), ServiceError>) -> (verdict: Verdict)
    ensures
        reports_management(verdict, result, " installed and running"@),
{
    management_verdict(result, " installed and running")
}

/// What `--uninstall` comes to.
pub fn uninstall_verdict(result: Result<(), ServiceError>) -> (verdict: Verdict)
    ensures
        reports_management(verdict, result, " removed"@),
{
    management_verdict(result, " removed")
}

/// What a bare invocation does once it is known who started it.
#[derive(Debug, PartialEq, Eq)]
pub enum RunPlan {
    /// Exit: the service ran to completion.
    Exit(u8),
    /// Run from the shell.
    Interactive,
    /// Print the line on stderr and exit.
    Fail {
        /// The exit code.
        code: u8,
        /// The line for stderr.
        line: String,
    },
}

/// The plan for a bare invocation.
pub fn run_plan(dispatched: Result<Dispatch, ServiceError>) -> (plan: RunPlan)
    ensures
        match dispatched {
            Ok(Dispatch::RanAsService) => plan == RunPlan::Exit(EXIT_OK),
            Ok(Dispatch::NotAService) => plan is Interactive,
            Err(err) => plan matches RunPlan::Fail { code, line } && code == EXIT_FAILURE && line@
                == "service dispatcher failed: "@ + service_error_text(err),
        },
{
    match dispatched {
        Ok(Dispatch::RanAsService) => RunPlan::Exit(EXIT_OK),
        Ok(Dispatch::NotAService) => RunPlan::Interactive,
        Err(err) => {
            let mut line = "service dispatcher failed: ".to_owned();
            line.append(err.message().as_str());
            RunPlan::Fail { code: EXIT_FAILURE, line }
        },
    }
}

/// `runs` are the places that a run passes through as `events` are reported, and `records`
/// what it logs at each of them.
pub open spec fn is_agent_trace(
    cfg: Config,
    interactive: bool,
    runs: Seq<AgentRun>,
    events: Seq<AgentEvent>,
    records: Seq<Option<AgentRecord>>,
) -> bool {
    &&& runs.len() == events.len() + 1
    &&& records.len() == events.len()
    &&& runs[0] is SecureDir
    &&& forall|i: int|
        0 <= i < events.len() ==> agent_step(
            cfg,
            interactive,
            runs[i],
            #[trigger] events[i],
            runs[i + 1],
            records[i],
        )
}

/// `event` says that step number `at` of the bootstrap succeeded.
pub open spec fn passes(event: AgentEvent, at: int) -> bool {
    match event {
        AgentEvent::DirSecured(result) => at == 0 && result is Ok,
        AgentEvent::Locked(result) => at == 1 && result is Ok,
        AgentEvent::LoggingReady(result) => at == 2 && result is Ok,
        AgentEvent::ChildLogSecured(result) => at == 3 && result is Ok,
        AgentEvent::Described(result) => at == 4 && result is Ok,
        AgentEvent::RuntimeBuilt(result) => at == 5 && result is Ok,
        AgentEvent::LoopEnded => at == 6,
    }
}

/// How many steps have succeeded when a run stands at `run`.
pub open spec fn steps_behind(run: AgentRun) -> int {
    match run {
        AgentRun::SecureDir => 0,
        AgentRun::AcquireLock => 1,
        AgentRun::InitLogging => 2,
        AgentRun::SecureChildLog => 3,
        AgentRun::DescribeChildLog => 4,
        AgentRun::BuildRuntime => 5,
        AgentRun::RunLoop => 6,
        AgentRun::Ended(_) => 7,
    }
}

/// The bootstrap goes through its steps in one order and stops at the first that fails:
/// wherever a run stands, every step before that one has succeeded. So the agent log is not
/// opened before its directory is locked and the instance lock is held, and the loop does not
/// run before both logs are protected.
pub proof fn bootstrap_keeps_its_order(
    cfg: Config,
    interactive: bool,
    runs: Seq<AgentRun>,
    events: Seq<AgentEvent>,
    records: Seq<Option<AgentRecord>>,
)
    requires
        is_agent_trace(cfg, interactive, runs, events, records),
    ensures
        match runs.last() {
            AgentRun::Ended(Err(_)) => events.len() >= 1 && !passes(
                events.last(),
                events.len() - 1,
            ) && forall|i: int| 0 <= i < events.len() - 1 ==> passes(#[trigger] events[i], i),
            run => events.len() == steps_behind(run) && forall|i: int|
                0 <= i < events.len() ==> passes(#[trigger] events[i], i),
        },
    decreases events.len(),
{
    if events.len() > 0 {
        let n = events.len() - 1;
        let earlier = runs.drop_last();
        let before = events.drop_last();
        let lines = records.drop_last();
        assert forall|i: int| 0 <= i < before.len() implies agent_step(
            cfg,
            interactive,
            earlier[i],
            #[trigger] before[i],
            earlier[i + 1],
            lines[i],
        ) by {
            assert(before[i] == events[i]);
        }
        bootstrap_keeps_its_order(cfg, interactive, earlier, before, lines);
        assert(agent_step(cfg, interactive, runs[n], events[n], runs[n + 1], records[n]));
        assert(earlier.last() == runs[n]);
        assert forall|i: int| 0 <= i < n implies passes(#[trigger] events[i], i) by {
            assert(events[i] == before[i]);
        }
    }
}

/// An instance that does not get the lock ends there: it never opens the agent log and logs
/// nothing, so it cannot write a line into the logs of the instance that holds the lock.
pub proof fn refused_instance_writes_nothing(
    cfg: Config,
    interactive: bool,
    runs: Seq<AgentRun>,
    events: Seq<AgentEvent>,
    records: Seq<Option<AgentRecord>>,
    err: PlatformError,
)
    requires
        is_agent_trace(cfg, interactive, runs, events, records),
        events.len() >= 2,
        events[1] == AgentEvent::Locked(Err(err)),
    ensures
        runs.len() == 3,
        runs[2] == AgentRun::Ended(Err(AgentError::AcquiringLock(err))),
        forall|i: int| 0 <= i < runs.len() ==> !((#[trigger] runs[i]) is InitLogging),
        forall|i: int| 0 <= i < records.len() ==> (#[trigger] records[i]) is None,
{
    assert(agent_step(cfg, interactive, runs[0], events[0], runs[1], records[0]));
    assert(agent_step(cfg, interactive, runs[1], events[1], runs[2], records[1]));
    if events.len() > 2 {
        assert(agent_step(cfg, interactive, runs[2], events[2], runs[3], records[2]));
    }
}

/// A run that ends well has been through its loop and logs that it stopped; one that could
/// not protect the child log, or could not read that protection back, logs why.
pub proof fn endings_are_logged(
    cfg: Config,
    interactive: bool,
    runs: Seq<AgentRun>,
    events: Seq<AgentEvent>,
    records: Seq<Option<AgentRecord>>,
    result: Result<(), AgentError>,
)
    requires
        is_agent_trace(cfg, interactive, runs, events, records),
        runs.last() == AgentRun::Ended(result),
    ensures
        result is Ok <==> events.last() is LoopEnded,
        result is Ok ==> records.last() == Some(AgentRecord::Stopped),
        result matches Err(err) ==> (err is SecuringChildLog || err is ReadingProtection)
            == reports_failure(records.last(), err),
{
    let n = events.len() - 1;
    assert(events.len() > 0);
    assert(agent_step(cfg, interactive, runs[n], events[n], runs[n + 1], records[n]));
}

} // verus!
