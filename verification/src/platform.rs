//! Platform boundary: the errors of the platform layer and, in the submodules, what each
//! platform's implementation decides. Everything here is plain data and decisions; the OS
//! calls themselves are made by the program that drives the library.

use vstd::prelude::*;

use std::path::PathBuf;

use crate::paths;
use crate::paths::{
    ends_in, is_ordinary, is_plain_name, path_joined, path_of, path_parts, path_text, with_root,
    PathPart,
};
use crate::text::{decimal, decimal_string};

pub mod unix;
pub mod windows;
pub mod winquote;

verus! {

/// What kind of failure a standard-library I/O operation reported.
#[derive(Debug, Clone, Copy, PartialEq, Eq, Structural)]
pub enum IoErrorKind {
    /// The file or directory does not exist.
    NotFound,
    /// Anything else.
    Other,
}

/// A failed standard-library I/O operation.
#[derive(Debug, PartialEq, Eq)]
pub struct IoError {
    /// The kind of failure.
    pub kind: IoErrorKind,
    /// The error's own text.
    pub message: String,
}

impl IoError {
    /// Whether the file or directory was missing.
    pub fn is_not_found(&self) -> (b: bool)
        ensures
            b == (self.kind == IoErrorKind::NotFound),
    {
        match self.kind {
            IoErrorKind::NotFound => true,
            IoErrorKind::Other => false,
        }
    }
}

/// Errors from the platform layer. Variants carry enough to log the failing call.
#[derive(Debug, PartialEq, Eq)]
pub enum PlatformError {
    /// A standard-library I/O operation failed.
    Io {
        /// What was being attempted.
        context: &'static str,
        /// The underlying error.
        source: IoError,
    },
    /// A raw OS API call failed.
    Os {
        /// The API that failed.
        call: &'static str,
        /// The OS error code.
        code: u32,
    },
    /// The user declined the elevation prompt.
    ElevationDeclined,
    /// Elevation is refused outright by policy for this account, so no prompt is offered.
    ElevationBlockedByPolicy,
    /// The operation has no implementation on this platform.
    Unsupported(&'static str),
    /// An existing log location could have been planted by another user.
    Untrusted {
        /// The refused path.
        path: String,
        /// What is wrong with it.
        reason: &'static str,
    },
    /// Another agent instance owns the log directory.
    AlreadyRunning {
        /// The lock file.
        path: String,
    },
}

/// The text of a platform error.
pub open spec fn platform_error_text(err: PlatformError) -> Seq<char> {
    match err {
        PlatformError::Io { context, source } => context@ + ": "@ + source.message@,
        PlatformError::Os { call, code } => call@ + " failed with OS error "@ + decimal(
            code as nat,
        ),
        PlatformError::ElevationDeclined => "elevation prompt was declined"@,
        PlatformError::ElevationBlockedByPolicy =>
            "elevation is blocked by policy for this account"@,
        PlatformError::Unsupported(what) => what@ + " is not supported on this platform"@,
        PlatformError::Untrusted { path, reason } => "refusing to use "@ + path@ + ": it is "@
            + reason@,
        PlatformError::AlreadyRunning { path } =>
            "another agent instance already holds the lock "@ + path@,
    }
}

/// The text of a platform error followed by that of its cause, where it has one.
pub open spec fn platform_error_chain(err: PlatformError) -> Seq<char> {
    match err {
        PlatformError::Io { context, source } => platform_error_text(err) + ": "@
            + source.message@,
        _ => platform_error_text(err),
    }
}

impl PlatformError {
    /// An I/O failure with what was being attempted.
    pub fn io(context: &'static str, source: IoError) -> (err: PlatformError)
        ensures
            err == (PlatformError::Io { context, source }),
    {
        PlatformError::Io { context, source }
    }

    /// The error as one line of text.
    pub fn message(&self) -> (text: String)
        ensures
            text@ == platform_error_text(*self),
    {
        let mut text = String::new();
        proof {
            assert(forall|s: Seq<char>| #[trigger] (text@ + s) == s);
        }
        match self {
            PlatformError::Io { context, source } => {
                text.append(context);
                text.append(": ");
                text.append(source.message.as_str());
            },
            PlatformError::Os { call, code } => {
                text.append(call);
                text.append(" failed with OS error ");
                text.append(decimal_string(*code as u64).as_str());
            },
            PlatformError::ElevationDeclined => {
                text.append("elevation prompt was declined");
            },
            PlatformError::ElevationBlockedByPolicy => {
                text.append("elevation is blocked by policy for this account");
            },
            PlatformError::Unsupported(what) => {
                text.append(what);
                text.append(" is not supported on this platform");
            },
            PlatformError::Untrusted { path, reason } => {
                text.append("refusing to use ");
                text.append(path.as_str());
                text.append(": it is ");
                text.append(reason);
            },
            PlatformError::AlreadyRunning { path } => {
                text.append("another agent instance already holds the lock ");
                text.append(path.as_str());
            },
        }
        text
    }

    /// The error and its cause, where it has one, as one line of text.
    pub fn chain(&self) -> (text: String)
        ensures
            text@ == platform_error_chain(*self),
    {
        let mut text = self.message();
        match self {
            PlatformError::Io { source, .. } => {
                text.append(": ");
                text.append(source.message.as_str());
            },
            _ => {},
        }
        text
    }
}

/// What is being secured.
#[derive(Debug, Clone, Copy, PartialEq, Eq, Structural)]
pub enum LogObject {
    /// The log directory.
    Dir,
    /// A log file.
    File,
}

/// The lock file that keeps a second instance away from a log directory.
pub fn lock_file(log_dir: &PathBuf) -> (path: PathBuf)
    ensures
        path == path_joined(*log_dir, path_of("agent.lock"@)),
        ends_in(path_text(path), "agent.lock"@),
        is_ordinary(*log_dir) ==> path_parts(path) == with_root(path_parts(*log_dir)).push(
            PathPart::Name("agent.lock"@),
        ),
{
    proof {
        reveal_strlit("agent.lock");
        assert("agent.lock"@.len() == 10);
        assert(is_plain_name("agent.lock"@));
    }
    paths::join_name(log_dir, "agent.lock")
}

/// How an attempt to lock a log directory for this instance went.
#[derive(Debug)]
pub enum LockAttempt {
    /// The lock is ours until we let go of it.
    Acquired,
    /// Another process holds it.
    Held,
    /// The lock file could not be opened.
    OpenFailed(IoError),
    /// The lock could not be asked for.
    LockFailed(IoError),
}

/// What an attempt to take the exclusive lock `lock` means.
pub fn acquire_instance_lock(lock: &PathBuf, attempt: LockAttempt) -> (acquired: Result<
    (),
    PlatformError,
>)
    ensures
        match attempt {
            LockAttempt::Acquired => acquired is Ok,
            LockAttempt::Held => acquired matches Err(PlatformError::AlreadyRunning { path })
                && path@ == path_text(*lock),
            LockAttempt::OpenFailed(err) => is_io_error(
                acquired,
                "opening the instance lock"@,
                err,
            ),
            LockAttempt::LockFailed(err) => is_io_error(
                acquired,
                "taking the instance lock"@,
                err,
            ),
        },
{
    match attempt {
        LockAttempt::Acquired => Ok(()),
        LockAttempt::Held => Err(PlatformError::AlreadyRunning { path: paths::display(lock) }),
        LockAttempt::OpenFailed(err) => Err(PlatformError::io("opening the instance lock", err)),
        LockAttempt::LockFailed(err) => Err(PlatformError::io("taking the instance lock", err)),
    }
}

/// `result` is the failure `err` of an I/O operation, with what was being attempted.
pub open spec fn is_io_error<T>(
    result: Result<T, PlatformError>,
    attempted: Seq<char>,
    err: IoError,
) -> bool {
    result matches Err(PlatformError::Io { context, source }) && context@ == attempted && source
        == err
}

/// `result` is the failure of an OS call with the given code.
pub open spec fn is_os_error<T>(
    result: Result<T, PlatformError>,
    name: Seq<char>,
    number: u32,
) -> bool {
    result matches Err(PlatformError::Os { call, code }) && call@ == name && code == number
}

/// `result` refuses the path for the given reason.
pub open spec fn is_refusal<T>(
    result: Result<T, PlatformError>,
    refused: PathBuf,
    why: Seq<char>,
) -> bool {
    result matches Err(PlatformError::Untrusted { path, reason }) && path@ == path_text(refused)
        && reason@ == why
}

/// The refusal of an existing path.
pub fn untrusted(path: &PathBuf, reason: &'static str) -> (err: PlatformError)
    ensures
        is_refusal(Err::<(), PlatformError>(err), *path, reason@),
{
    PlatformError::Untrusted { path: paths::display(path), reason }
}

} // verus!
