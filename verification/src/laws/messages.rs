//! Laws of what errors say.

use vstd::prelude::*;

use std::path::PathBuf;

use crate::app::AgentError;
use crate::config::{Config, ConfigError};
use crate::cycle::CycleError;
use crate::laws::text::{decimals_read_back, number};
use crate::logging::LoggingError;
use crate::metrics::MetricsError;
use crate::paths::{ends_in, path_text};
use crate::platform::{lock_file, untrusted, IoError, PlatformError};
use crate::service::windows::{agent_log_text, panic_message, PanicPayload};
use crate::service::{ApiError, ServiceError};
use crate::text::decimal_string;

verus! {

/// A file is missing exactly when its error says so.
pub proof fn missing_files_are_not_found(err: IoError, missing: bool)
    requires
        call_ensures(IoError::is_not_found, (&err,), missing),
    ensures
        missing <==> err.kind is NotFound,
        missing <==> !(err.kind is Other),
{
}

/// A failed operation is named in front of the error's own text, and a failed call in front of
/// its code, which reads back as it is.
pub proof fn failures_name_what_failed(err: PlatformError, text: String, code: u32, digits: String)
    requires
        call_ensures(PlatformError::message, (&err,), text),
        call_ensures(decimal_string, (code as u64,), digits),
    ensures
        err matches PlatformError::Io { context, source } ==> text@ == context@ + ": "@
            + source.message@,
        err matches PlatformError::Os { call, code: reported } ==> reported == code ==> text@
            == call@ + " failed with OS error "@ + digits@,
        number(digits@) == code,
{
    decimals_read_back(code as u64, digits);
}

/// What is refused, locked or unsupported is named, with the reason where there is one.
pub proof fn refusals_name_what_is_refused(err: PlatformError, text: String)
    requires
        call_ensures(PlatformError::message, (&err,), text),
    ensures
        err is ElevationDeclined ==> text@ == "elevation prompt was declined"@,
        err is ElevationBlockedByPolicy ==> text@
            == "elevation is blocked by policy for this account"@,
        err matches PlatformError::Unsupported(what) ==> text@ == what@
            + " is not supported on this platform"@,
        err matches PlatformError::Untrusted { path, reason } ==> text@ == "refusing to use "@
            + path@ + ": it is "@ + reason@,
        err matches PlatformError::AlreadyRunning { path } ==> text@
            == "another agent instance already holds the lock "@ + path@,
{
}

/// An error's causes come behind its own text, and one that has no cause says nothing more.
pub proof fn causes_come_behind(err: PlatformError, text: String, chain: String)
    requires
        call_ensures(PlatformError::message, (&err,), text),
        call_ensures(PlatformError::chain, (&err,), chain),
    ensures
        err matches PlatformError::Io { source, .. } ==> chain@ == text@ + ": "@ + source.message@,
        !(err is Io) ==> chain@ == text@,
{
}

/// A path that is refused is named as it is shown, with the reason.
pub proof fn refusals_keep_the_reason(path: PathBuf, reason: &'static str, err: PlatformError)
    requires
        call_ensures(untrusted, (&path, reason), err),
    ensures
        err matches PlatformError::Untrusted { path: refused, reason: told } && refused@
            == path_text(path) && told@ == reason@,
{
}

/// An I/O failure keeps what was attempted and the error itself.
pub proof fn failures_keep_their_error(
    context: &'static str,
    source: IoError,
    err: PlatformError,
)
    requires
        call_ensures(PlatformError::io, (context, source), err),
    ensures
        err matches PlatformError::Io { context: attempted, source: failed } && attempted@
            == context@ && failed == source,
{
}

/// The lock file of a log directory is called after what it is.
pub proof fn lock_files_have_their_name(log_dir: PathBuf, path: PathBuf)
    requires
        call_ensures(lock_file, (&log_dir,), path),
    ensures
        ends_in(path_text(path), "agent.lock"@),
{
}

/// A failed call of the service manager is told by its own text, and a failed call to the
/// registry by its name and code, which reads back as it is.
pub proof fn service_failures_name_what_failed(
    err: ServiceError,
    text: String,
    code: u32,
    digits: String,
)
    requires
        call_ensures(ServiceError::message, (&err,), text),
        call_ensures(decimal_string, (code as u64,), digits),
    ensures
        err matches ServiceError::Api(source) ==> text@ == "service control manager: "@
            + source.message@,
        err matches ServiceError::StopFailed { source } ==> text@
            == "the service could not be stopped: "@ + source.message@,
        err matches ServiceError::Registry { call, code: reported } ==> reported == code ==> text@
            == call@ + " failed with OS error "@ + digits@,
        number(digits@) == code,
{
    decimals_read_back(code as u64, digits);
}

/// The other failures of a service command say what the user can do.
pub proof fn service_failures_tell_what_to_do(err: ServiceError, text: String)
    requires
        call_ensures(ServiceError::message, (&err,), text),
    ensures
        err matches ServiceError::FailedToStart { exit_code } ==> text@
            == "service stopped during start-up with exit code "@ + exit_code@
            + "; see agent.log or the System event log"@,
        err matches ServiceError::Timeout { wanted } ==> text@
            == "timed out waiting for the service to reach "@ + wanted@,
        err is NotInstalled ==> text@ == "FlamingoAgent"@ + " is not installed"@,
        err is MarkedForDelete ==> text@ == "FlamingoAgent"@
            + " is marked for deletion; close the Services console and try again"@,
        err is Unsupported ==> text@
            == "Windows service registration is not supported on this platform; see README for the systemd/launchd mapping"@,
{
}

/// The call that a service error is about.
pub open spec fn is_about(err: ServiceError, source: ApiError) -> bool {
    err == ServiceError::Api(source) || err == (ServiceError::StopFailed { source })
}

/// The causes of a failed call come behind the error's own text, as far as they are known; an
/// error without a failed call says nothing more.
pub proof fn service_causes_come_behind(
    err: ServiceError,
    source: ApiError,
    text: String,
    chain: String,
)
    requires
        call_ensures(ServiceError::message, (&err,), text),
        call_ensures(ServiceError::chain, (&err,), chain),
    ensures
        is_about(err, source) ==> source.cause is None ==> chain@ == text@ + ": "@
            + source.message@,
        is_about(err, source) ==> (source.cause matches Some(cause) ==> chain@ == text@ + ": "@
            + source.message@ + ": "@ + cause@),
        !(err is Api) && !(err is StopFailed) ==> chain@ == text@,
{
    if is_about(err, source) {
        if let Some(cause) = source.cause {
            assert(chain@ =~= text@ + ": "@ + source.message@ + ": "@ + cause@);
        } else {
            assert(chain@ =~= text@ + ": "@ + source.message@);
        }
    }
}

/// Rights are missing exactly when a call of the service manager failed with access denied.
pub proof fn only_access_denied_means_missing_rights(
    err: ServiceError,
    source: ApiError,
    denied: bool,
)
    requires
        call_ensures(ServiceError::access_denied, (&err,), denied),
    ensures
        is_about(err, source) ==> (denied <==> source.code == Some(5i32)),
        !(err is Api) && !(err is StopFailed) ==> !denied,
{
}

/// A logging failure says what went wrong first, and a log that could not be opened says why.
pub proof fn logging_failures_name_what_failed(
    err: LoggingError,
    text: String,
    chain: String,
)
    requires
        call_ensures(LoggingError::message, (&err,), text),
        call_ensures(LoggingError::chain, (&err,), chain),
    ensures
        err is Filter ==> "invalid log level "@.is_prefix_of(text@),
        err is Path ==> "invalid agent log path "@.is_prefix_of(text@),
        err is AlreadyInitialised ==> text@ == "logging was already initialised"@,
        err matches LoggingError::Open(source) ==> text@ == "opening the agent log: "@
            + source.message@,
        err matches LoggingError::Open(source) ==> chain@ == text@ + ": "@ + source.message@,
        !(err is Open) ==> chain@ == text@,
{
}

/// An agent error says at which step it came, then what the step's own error says, with its
/// causes.
pub proof fn agent_errors_name_their_step(
    err: AgentError,
    text: String,
    source: PlatformError,
    platform: String,
)
    requires
        call_ensures(AgentError::message, (&err,), text),
        call_ensures(PlatformError::chain, (&source,), platform),
    ensures
        err matches AgentError::SecuringLogDir { path, source: cause } ==> cause == source ==> text@
            == "securing log directory "@ + path@ + ": "@ + platform@,
        err == AgentError::AcquiringLock(source) ==> text@ == "acquiring the instance lock: "@
            + platform@,
        err matches AgentError::SecuringChildLog { path, source: cause } ==> cause == source
            ==> text@ == "securing child log "@ + path@ + ": "@ + platform@,
        err == AgentError::ReadingProtection(source) ==> text@
            == "reading child log protection: "@ + platform@,
{
}

/// So do the agent errors that do not come from the platform layer.
pub proof fn other_agent_errors_name_their_step(
    err: AgentError,
    text: String,
    config: ConfigError,
    refused: String,
    logging: LoggingError,
    setup: String,
)
    requires
        call_ensures(AgentError::message, (&err,), text),
        call_ensures(ConfigError::message, (&config,), refused),
        call_ensures(LoggingError::chain, (&logging,), setup),
    ensures
        err matches AgentError::LocatingExecutable(source) ==> text@
            == "locating own executable: "@ + source.message@,
        err == AgentError::Config(config) ==> text@ == refused@,
        err == AgentError::InitialisingLogging(logging) ==> text@ == "initialising logging: "@
            + setup@,
        err matches AgentError::BuildingRuntime(source) ==> text@ == "building async runtime: "@
            + source.message@,
{
}

/// A failed cycle says whether sampling or securing failed, then what that error says.
pub proof fn cycle_errors_name_their_step(
    err: CycleError,
    text: String,
    metrics: MetricsError,
    sampling: String,
    source: PlatformError,
    platform: String,
)
    requires
        call_ensures(CycleError::message, (&err,), text),
        call_ensures(MetricsError::message, (&metrics,), sampling),
        call_ensures(PlatformError::chain, (&source,), platform),
    ensures
        sampling@ == "process memory statistics are unavailable"@,
        err == CycleError::Collecting(metrics) ==> text@ == "collecting metrics: "@ + sampling@,
        err matches CycleError::Securing { path, source: cause } ==> cause == source ==> text@
            == "securing child log "@ + path@ + ": "@ + platform@,
{
}

/// A panic is told in its own words where it has any.
pub proof fn panics_are_told_in_their_own_words(payload: PanicPayload, text: &str)
    requires
        call_ensures(panic_message, (&payload,), text),
    ensures
        payload matches PanicPayload::Static(words) ==> text@ == words@,
        payload matches PanicPayload::Owned(words) ==> text@ == words@,
        payload is Other ==> text@ == "(non-string panic payload)"@,
{
}

/// A service's events name the agent log by its whole path once the configuration is known, and
/// by its name alone before.
pub proof fn events_name_the_agent_log(resolved: Result<Config, AgentError>, text: String)
    requires
        call_ensures(agent_log_text, (&resolved,), text),
    ensures
        resolved matches Ok(cfg) ==> text@ == path_text(cfg.agent_log),
        resolved is Err ==> text@ == "agent.log"@,
{
}

} // verus!
