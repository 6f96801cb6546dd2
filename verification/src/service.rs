//! Service Control Manager integration. Windows gets the real implementation; every other
//! platform reports the operation as unsupported and always runs interactively.

use vstd::prelude::*;

use crate::text::{decimal, decimal_string};

pub mod eventlog;
pub mod unsupported;
pub mod windows;

verus! {

/// Registered service name.
pub const SERVICE_NAME: &'static str = "FlamingoAgent";

/// Name shown in the Services console.
pub const SERVICE_DISPLAY_NAME: &'static str = "Flamingo Agent";

/// Description shown in the Services console.
pub const SERVICE_DESCRIPTION: &'static str =
    "Collects UTC time and process RSS every 5 seconds and launches logger-child with a restricted log file.";

/// How a bare invocation was handled.
#[derive(Debug, Clone, Copy, PartialEq, Eq, Structural)]
pub enum Dispatch {
    /// The SCM started us; the service ran to completion.
    RanAsService,
    /// Not started by the SCM; the caller should run interactively.
    NotAService,
}

/// The OS error code for a caller without the rights that a call needs.
pub const ERROR_ACCESS_DENIED: i32 = 5;

/// A failed Service Control Manager call.
#[derive(Debug, PartialEq, Eq)]
pub struct ApiError {
    /// The OS error code, where there is one.
    pub code: Option<i32>,
    /// The error's own text.
    pub message: String,
    /// The text of what caused it, where that is known.
    pub cause: Option<String>,
}

/// Service management failures.
#[derive(Debug, PartialEq, Eq)]
pub enum ServiceError {
    /// A Service Control Manager API call failed.
    Api(ApiError),
    /// The service stopped during start-up instead of reaching Running.
    FailedToStart {
        /// Debug rendering of the reported exit code.
        exit_code: String,
    },
    /// The service did not reach the wanted state in time.
    Timeout {
        /// The state that was awaited.
        wanted: String,
    },
    /// There is no such service to remove.
    NotInstalled,
    /// The registration is deleted but still in use, so its name is not free yet.
    MarkedForDelete,
    /// The service could not be stopped.
    StopFailed {
        /// Why it refused.
        source: ApiError,
    },
    /// The event source's registration failed.
    Registry {
        /// The API that failed.
        call: &'static str,
        /// The OS error code.
        code: u32,
    },
    /// No service manager on this platform.
    Unsupported,
}

/// The text of a service error.
pub open spec fn service_error_text(err: ServiceError) -> Seq<char> {
    match err {
        ServiceError::Api(source) => "service control manager: "@ + source.message@,
        ServiceError::FailedToStart { exit_code } =>
            "service stopped during start-up with exit code "@ + exit_code@
            + "; see agent.log or the System event log"@,
        ServiceError::Timeout { wanted } => "timed out waiting for the service to reach "@
            + wanted@,
        ServiceError::NotInstalled => SERVICE_NAME@ + " is not installed"@,
        ServiceError::MarkedForDelete => SERVICE_NAME@
            + " is marked for deletion; close the Services console and try again"@,
        ServiceError::StopFailed { source } => "the service could not be stopped: "@
            + source.message@,
        ServiceError::Registry { call, code } => call@ + " failed with OS error "@ + decimal(
            code as nat,
        ),
        ServiceError::Unsupported =>
            "Windows service registration is not supported on this platform; see README for the systemd/launchd mapping"@,
    }
}

/// The failed call behind a service error, where there is one.
pub open spec fn api_cause(err: ServiceError) -> Option<ApiError> {
    match err {
        ServiceError::Api(source) => Some(source),
        ServiceError::StopFailed { source } => Some(source),
        _ => None,
    }
}

/// The Service Control Manager refused a call for want of rights.
pub open spec fn is_access_denied(err: ServiceError) -> bool {
    api_cause(err) matches Some(source) && source.code == Some(ERROR_ACCESS_DENIED)
}

/// The text of a service error followed by those of its causes.
pub open spec fn service_error_chain(err: ServiceError) -> Seq<char> {
    match api_cause(err) {
        Some(source) => service_error_text(err) + ": "@ + source.message@ + (match source.cause {
            Some(cause) => ": "@ + cause@,
            None => Seq::<char>::empty(),
        }),
        None => service_error_text(err),
    }
}

impl ServiceError {
    /// The error as one line of text.
    pub fn message(&self) -> (text: String)
        ensures
            text@ == service_error_text(*self),
    {
        match self {
            ServiceError::Api(source) => {
                let mut text = "service control manager: ".to_owned();
                text.append(source.message.as_str());
                text
            },
            ServiceError::FailedToStart { exit_code } => {
                let mut text = "service stopped during start-up with exit code ".to_owned();
                text.append(exit_code.as_str());
                text.append("; see agent.log or the System event log");
                text
            },
            ServiceError::Timeout { wanted } => {
                let mut text = "timed out waiting for the service to reach ".to_owned();
                text.append(wanted.as_str());
                text
            },
            ServiceError::NotInstalled => {
                let mut text = SERVICE_NAME.to_owned();
                text.append(" is not installed");
                text
            },
            ServiceError::MarkedForDelete => {
                let mut text = SERVICE_NAME.to_owned();
                text.append(" is marked for deletion; close the Services console and try again");
                text
            },
            ServiceError::StopFailed { source } => {
                let mut text = "the service could not be stopped: ".to_owned();
                text.append(source.message.as_str());
                text
            },
            ServiceError::Registry { call, code } => {
                let mut text = (*call).to_owned();
                text.append(" failed with OS error ");
                text.append(decimal_string(*code as u64).as_str());
                text
            },
            ServiceError::Unsupported =>
                "Windows service registration is not supported on this platform; see README for the systemd/launchd mapping".to_owned(),
        }
    }

    /// Whether the Service Control Manager refused a call for want of rights.
    pub fn access_denied(&self) -> (denied: bool)
        ensures
            denied == is_access_denied(*self),
    {
        let source = match self {
            ServiceError::Api(source) => source,
            ServiceError::StopFailed { source } => source,
            _ => {
                return false;
            },
        };
        match source.code {
            Some(code) => code == ERROR_ACCESS_DENIED,
            None => false,
        }
    }

    /// The error and its causes as one line of text.
    pub fn chain(&self) -> (text: String)
        ensures
            text@ == service_error_chain(*self),
    {
        let mut text = self.message();
        let source = match self {
            ServiceError::Api(source) => source,
            ServiceError::StopFailed { source } => source,
            _ => {
                return text;
            },
        };
        text.append(": ");
        text.append(source.message.as_str());
        match &source.cause {
            Some(cause) => {
                let ghost before = text@;
                text.append(": ");
                text.append(cause.as_str());
                proof {
                    assert(text@ == before + (": "@ + cause@));
                }
            },
            None => {
                proof {
                    assert(text@ + Seq::<char>::empty() == text@);
                }
            },
        }
        text
    }
}

} // verus!
