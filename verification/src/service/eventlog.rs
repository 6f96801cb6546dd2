//! The Windows Application event log: what the service reports there, and how its source is
//! registered.
//!
//! The service has no console, and `agent.log` sits inside a directory only administrators
//! can open. The Application log is where an operator looks first, so the lifecycle facts go
//! there as well. Every report is best-effort: an event log that cannot be written must never
//! stop the agent from doing its job.

use vstd::prelude::*;

use std::path::PathBuf;

use crate::paths;
use crate::paths::path_text;
use crate::service::ServiceError;

verus! {

/// The service reached Running.
pub const EVENT_STARTED: u32 = 1;

/// The service stopped on request.
pub const EVENT_STOPPED: u32 = 2;

/// Bootstrap failed before the loop started; the message carries the error.
pub const EVENT_BOOTSTRAP_FAILED: u32 = 3;

/// The agent panicked.
pub const EVENT_PANIC: u32 = 4;

/// The registered command line did not parse.
pub const EVENT_BAD_ARGUMENTS: u32 = 5;

/// The event types that the source reports: errors, warnings and information.
pub const TYPES_SUPPORTED: u32 = 7;

/// The call succeeded.
pub const ERROR_SUCCESS: u32 = 0;

/// The key does not exist.
pub const ERROR_FILE_NOT_FOUND: u32 = 2;

/// The type of an event.
#[derive(Debug, Clone, Copy, PartialEq, Eq, Structural)]
pub enum EventKind {
    /// Information.
    Info,
    /// An error.
    Error,
}

/// An event for the Application log.
#[derive(Debug, PartialEq, Eq)]
pub struct LogEvent {
    /// Its type.
    pub kind: EventKind,
    /// Its number.
    pub id: u32,
    /// Its text.
    pub message: String,
}

impl LogEvent {
    /// The event has this number and this text, and the type that belongs to the number: a
    /// start and a requested stop are information, everything else is an error.
    pub open spec fn tells(self, id: u32, message: Seq<char>) -> bool {
        &&& self.id == id
        &&& self.message@ == message
        &&& self.kind == if id == EVENT_STARTED || id == EVENT_STOPPED {
            EventKind::Info
        } else {
            EventKind::Error
        }
    }
}

/// The registry key of an event source, below the local machine's root.
pub open spec fn source_key_text(source: Seq<char>) -> Seq<char> {
    "SYSTEM\\CurrentControlSet\\Services\\EventLog\\Application\\"@ + source
}

/// The registry key of an event source, below the local machine's root.
pub fn source_key(source: &str) -> (key: String)
    ensures
        key@ == source_key_text(source@),
{
    let mut key = "SYSTEM\\CurrentControlSet\\Services\\EventLog\\Application\\".to_owned();
    key.append(source);
    key
}

/// What a registry call's code means.
pub open spec fn registry_result(call: Seq<char>, code: u32, result: Result<(), ServiceError>) -> bool {
    if code == ERROR_SUCCESS {
        result is Ok
    } else {
        result matches Err(ServiceError::Registry { call: name, code: number }) && name@ == call
            && number == code
    }
}

fn registry_error(call: &'static str, code: u32) -> (err: ServiceError)
    ensures
        err == (ServiceError::Registry { call, code }),
{
    ServiceError::Registry { call, code }
}

/// A value of the event source's key.
#[derive(Debug, PartialEq, Eq)]
pub enum SourceValue {
    /// The file whose message table renders the events: the agent's own executable.
    EventMessageFile(String),
    /// The event types that the source reports.
    TypesSupported(u32),
}

/// Registering the event source, by what has to be done next.
#[derive(Debug)]
pub enum RegisterRun {
    /// Create or open the source's key.
    CreateKey,
    /// Write a value of the key.
    SetValue(SourceValue),
    /// Close the key.
    CloseKey {
        /// How the registration went.
        result: Result<(), ServiceError>,
    },
    /// Nothing: the registration is over.
    Ended(Result<(), ServiceError>),
}

/// What the steps of the registration report: OS error codes, 0 for success.
pub enum RegisterEvent {
    /// The key was created or opened, or not.
    KeyCreated(u32),
    /// The value was written, or not; one that is too long to be written comes with the
    /// error that says so.
    ValueSet(Result<u32, ServiceError>),
    /// The key was closed.
    KeyClosed,
}

/// `after` is where the registration for the executable `exe` stands once `event` was
/// reported.
pub open spec fn register_step(
    exe: PathBuf,
    before: RegisterRun,
    event: RegisterEvent,
    after: RegisterRun,
) -> bool {
    match (before, event) {
        (RegisterRun::CreateKey, RegisterEvent::KeyCreated(code)) => if code == ERROR_SUCCESS {
            after matches RegisterRun::SetValue(SourceValue::EventMessageFile(file)) && file@
                == path_text(exe)
        } else {
            after matches RegisterRun::Ended(result) && registry_result(
                "RegCreateKeyExW"@,
                code,
                result,
            )
        },
        (RegisterRun::SetValue(value), RegisterEvent::ValueSet(written)) => match written {
            Err(err) => after == (RegisterRun::CloseKey { result: Err(err) }),
            Ok(code) => if code != ERROR_SUCCESS {
                after matches RegisterRun::CloseKey { result } && registry_result(
                    "RegSetValueExW"@,
                    code,
                    result,
                )
            } else if value is EventMessageFile {
                after == RegisterRun::SetValue(SourceValue::TypesSupported(TYPES_SUPPORTED))
            } else {
                after matches RegisterRun::CloseKey { result } && result is Ok
            },
        },
        (RegisterRun::CloseKey { result }, RegisterEvent::KeyClosed) => after
            == RegisterRun::Ended(result),
        _ => false,
    }
}

/// After the attempt to create the key. Registering again is no error.
pub fn after_create_key(exe: &PathBuf, code: u32) -> (run: RegisterRun)
    ensures
        register_step(*exe, RegisterRun::CreateKey, RegisterEvent::KeyCreated(code), run),
{
    if code == ERROR_SUCCESS {
        RegisterRun::SetValue(SourceValue::EventMessageFile(paths::display(exe)))
    } else {
        RegisterRun::Ended(Err(registry_error("RegCreateKeyExW", code)))
    }
}

/// After the attempt to write a value.
pub fn after_set_value(value: SourceValue, written: Result<u32, ServiceError>) -> (run: RegisterRun)
    ensures
        forall|exe: PathBuf| #[trigger]
            register_step(
                exe,
                RegisterRun::SetValue(value),
                RegisterEvent::ValueSet(written),
                run,
            ),
{
    let code = match written {
        Ok(code) => code,
        Err(err) => {
            return RegisterRun::CloseKey { result: Err(err) };
        },
    };
    if code != ERROR_SUCCESS {
        return RegisterRun::CloseKey { result: Err(registry_error("RegSetValueExW", code)) };
    }
    match value {
        SourceValue::EventMessageFile(_) => RegisterRun::SetValue(
            SourceValue::TypesSupported(TYPES_SUPPORTED),
        ),
        SourceValue::TypesSupported(_) => RegisterRun::CloseKey { result: Ok(()) },
    }
}

/// After the key was closed.
pub fn after_close_key(result: Result<(), ServiceError>) -> (run: RegisterRun)
    ensures
        forall|exe: PathBuf| #[trigger]
            register_step(exe, RegisterRun::CloseKey { result }, RegisterEvent::KeyClosed, run),
{
    RegisterRun::Ended(result)
}

/// The size in bytes of a value of `units` UTF-16 code units.
pub fn value_size(units: usize) -> (size: Result<u32, ServiceError>)
    ensures
        match size {
            Ok(bytes) => bytes == units * 2,
            Err(err) => units * 2 > u32::MAX && (err matches ServiceError::Registry { call, code }
                && call@ == "RegSetValueExW"@ && code == 0),
        },
{
    if units > 0x7fff_ffff {
        Err(registry_error("RegSetValueExW", 0))
    } else {
        Ok(units as u32 * 2)
    }
}

/// What the removal of the source's key means. A source that was never registered is not an
/// error.
pub fn unregister_source(code: u32) -> (removed: Result<(), ServiceError>)
    ensures
        if code == ERROR_FILE_NOT_FOUND {
            removed is Ok
        } else {
            registry_result("RegDeleteKeyW"@, code, removed)
        },
{
    if code == ERROR_SUCCESS || code == ERROR_FILE_NOT_FOUND {
        Ok(())
    } else {
        Err(registry_error("RegDeleteKeyW", code))
    }
}

/// `runs` are the places that the registration passes through as `events` are reported.
pub open spec fn is_register_trace(
    exe: PathBuf,
    runs: Seq<RegisterRun>,
    events: Seq<RegisterEvent>,
) -> bool {
    &&& runs.len() == events.len() + 1
    &&& runs[0] is CreateKey
    &&& forall|i: int|
        0 <= i < events.len() ==> register_step(exe, runs[i], #[trigger] events[i], runs[i + 1])
}

proof fn lemma_register_trace(exe: PathBuf, runs: Seq<RegisterRun>, events: Seq<RegisterEvent>)
    requires
        is_register_trace(exe, runs, events),
    ensures
        runs.last() is CreateKey <==> events.len() == 0,
        match runs.last() {
            RegisterRun::CreateKey => true,
            RegisterRun::SetValue(value) => events[0] == RegisterEvent::KeyCreated(0)
                && events.len() == if value is EventMessageFile {
                1int
            } else {
                2int
            } && (value is TypesSupported ==> value == SourceValue::TypesSupported(TYPES_SUPPORTED)
                && events[1] == RegisterEvent::ValueSet(Ok(0)) && (
            runs[1] matches RegisterRun::SetValue(SourceValue::EventMessageFile(file)) && file@
                == path_text(exe))),
            RegisterRun::CloseKey { result } => events[0] == RegisterEvent::KeyCreated(0) && (
            result is Ok ==> events.len() == 3 && events[1] == RegisterEvent::ValueSet(Ok(0))
                && events[2] == RegisterEvent::ValueSet(Ok(0)) && (
            runs[1] matches RegisterRun::SetValue(SourceValue::EventMessageFile(file)) && file@
                == path_text(exe)) && runs[2] == RegisterRun::SetValue(
                SourceValue::TypesSupported(TYPES_SUPPORTED),
            )),
            RegisterRun::Ended(_) => events.last() is KeyClosed || events.len() == 1,
        },
    decreases events.len(),
{
    if events.len() > 0 {
        let n = events.len() - 1;
        let earlier = runs.drop_last();
        let before = events.drop_last();
        assert forall|i: int| 0 <= i < before.len() implies register_step(
            exe,
            earlier[i],
            #[trigger] before[i],
            earlier[i + 1],
        ) by {
            assert(before[i] == events[i]);
        }
        lemma_register_trace(exe, earlier, before);
        assert(register_step(exe, runs[n], events[n], runs[n + 1]));
        assert(earlier.last() == runs[n]);
        assert(n > 0 ==> events[0] == before[0] && earlier[1] == runs[1]);
    }
}

/// A key that was opened is closed again, whatever happened in between, and a registration
/// that succeeds has written both values.
pub proof fn registration_closes_its_key(
    exe: PathBuf,
    runs: Seq<RegisterRun>,
    events: Seq<RegisterEvent>,
    result: Result<(), ServiceError>,
)
    requires
        is_register_trace(exe, runs, events),
        runs.last() == RegisterRun::Ended(result),
    ensures
        events[0] == RegisterEvent::KeyCreated(0) <==> events.last() is KeyClosed,
        result is Ok ==> {
            &&& runs[1] matches RegisterRun::SetValue(SourceValue::EventMessageFile(file))
            &&& file@ == path_text(exe)
            &&& runs[2] == RegisterRun::SetValue(SourceValue::TypesSupported(TYPES_SUPPORTED))
            &&& events[1] == RegisterEvent::ValueSet(Ok(0))
            &&& events[2] == RegisterEvent::ValueSet(Ok(0))
        },
{
    lemma_register_trace(exe, runs, events);
    let n = events.len() - 1;
    let earlier = runs.drop_last();
    let before = events.drop_last();
    assert forall|i: int| 0 <= i < before.len() implies register_step(
        exe,
        earlier[i],
        #[trigger] before[i],
        earlier[i + 1],
    ) by {
        assert(before[i] == events[i]);
    }
    lemma_register_trace(exe, earlier, before);
    assert(register_step(exe, runs[n], events[n], runs[n + 1]));
    assert(earlier.last() == runs[n]);
    if n > 0 {
        assert(events[0] == before[0]);
    }
}

} // verus!
