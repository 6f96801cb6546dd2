//! Windows: protected DACLs expressed as SDDL, token elevation checks and a UAC relaunch.

use vstd::prelude::*;

use std::path::PathBuf;

use crate::paths;
use crate::paths::{
    ends_in, is_absolute, is_ordinary, is_plain_name, path_joined, path_of, path_parts, path_text,
    with_root, PathPart,
};
use crate::platform::{
    is_io_error, is_os_error, is_refusal, untrusted, IoError, LockAttempt, LogObject, PlatformError,
};
use crate::text::{chars_of, string_of};

verus! {

/// File name of the child binary next to the agent executable.
pub const CHILD_BINARY_NAME: &'static str = "logger-child.exe";

/// Talking to the service control manager needs an elevated token.
pub const SERVICE_MANAGEMENT_NEEDS_PRIVILEGE: bool = true;

/// Protected DACL: full access for BUILTIN\Administrators and SYSTEM, nothing else,
/// no inheritance from the parent directory (`P`).
pub const FILE_SDDL: &'static str = "D:P(A;;FA;;;BA)(A;;FA;;;SY)";

/// Same principals; `OI`/`CI` make the entries inherit to files and subdirectories.
pub const DIR_SDDL: &'static str = "D:P(A;OICI;FA;;;BA)(A;OICI;FA;;;SY)";

/// The file does not exist.
pub const ERROR_FILE_NOT_FOUND: u32 = 2;

/// A directory on the way to the path does not exist.
pub const ERROR_PATH_NOT_FOUND: u32 = 3;

/// Another process has the file open and shares nothing.
pub const ERROR_SHARING_VIOLATION: u32 = 32;

/// The directory exists already.
pub const ERROR_ALREADY_EXISTS: u32 = 183;

/// The attribute of a reparse point.
pub const FILE_ATTRIBUTE_REPARSE_POINT: u32 = 0x400;

/// The user declined the elevation prompt.
pub const ERROR_CANCELLED: u32 = 1223;

/// Policy refuses the elevation without a prompt.
pub const ERROR_ACCESS_DISABLED_BY_POLICY: u32 = 1260;

/// Where the log directory lies: `given`, or `C:\ProgramData`.
pub open spec fn program_data_or_default(given: Option<PathBuf>) -> PathBuf {
    match given {
        Some(base) => base,
        None => path_of("C:\\ProgramData"@),
    }
}

/// `%ProgramData%\FlamingoAgent`, falling back to `C:\ProgramData\FlamingoAgent`.
pub fn default_log_dir(program_data: Option<PathBuf>) -> (dir: PathBuf)
    ensures
        dir == path_joined(program_data_or_default(program_data), path_of("FlamingoAgent"@)),
        ends_in(path_text(dir), "FlamingoAgent"@),
        program_data matches Some(base) ==> {
            &&& is_ordinary(base) ==> path_parts(dir) == with_root(path_parts(base)).push(
                PathPart::Name("FlamingoAgent"@),
            )
            &&& is_absolute(base) ==> is_absolute(dir)
        },
{
    proof {
        reveal_strlit("FlamingoAgent");
        assert("FlamingoAgent"@.len() == 13);
        assert(is_plain_name("FlamingoAgent"@));
    }
    let base = match program_data {
        Some(given) => given,
        None => paths::path_from("C:\\ProgramData"),
    };
    paths::join_name(&base, "FlamingoAgent")
}

/// The UTF-16 code units of a character.
pub open spec fn utf16_units(c: char) -> Seq<u16> {
    let n = c as u32;
    if n < 0x1_0000 {
        seq![n as u16]
    } else {
        seq![
            (0xd800 + (n - 0x1_0000) / 0x400) as u16,
            (0xdc00 + (n - 0x1_0000) % 0x400) as u16,
        ]
    }
}

/// The UTF-16 code units of a text.
pub open spec fn utf16(text: Seq<char>) -> Seq<u16>
    decreases text.len(),
{
    if text.len() == 0 {
        Seq::empty()
    } else {
        utf16(text.drop_last()) + utf16_units(text.last())
    }
}

/// NUL-terminated UTF-16 for Win32 `W` APIs.
pub fn wide(text: &str) -> (units: Vec<u16>)
    ensures
        units@ == utf16(text@).push(0u16),
{
    let chars = chars_of(text);
    let mut units: Vec<u16> = Vec::new();
    for i in 0..chars.len()
        invariant
            chars@ == text@,
            units@ == utf16(text@.take(i as int)),
    {
        let c = chars[i];
        let n: u32 = c as u32;
        proof {
            let longer = text@.take(i + 1);
            assert(longer.drop_last() == text@.take(i as int));
            assert(longer.last() == c);
        }
        if n < 0x1_0000 {
            units.push(n as u16);
        } else {
            units.push((0xd800 + (n - 0x1_0000) / 0x400) as u16);
            units.push((0xdc00 + (n - 0x1_0000) % 0x400) as u16);
        }
    }
    proof {
        assert(text@.take(text@.len() as int) == text@);
    }
    units.push(0);
    units
}

/// What stands at a log path.
#[derive(Debug, Clone, Copy, PartialEq, Eq)]
pub enum Existing {
    /// Nothing.
    Absent,
    /// A file or directory.
    Object {
        /// It is a reparse point, such as a junction or a symbolic link.
        reparse_point: bool,
        /// Its owner is BUILTIN\Administrators or SYSTEM.
        trusted_owner: bool,
    },
    /// It cannot be told.
    Unreadable {
        /// The API that failed.
        call: &'static str,
        /// The OS error code.
        code: u32,
    },
}

/// What stands at a path whose attributes were read, or not, with an OS error code. `owner`
/// says of a real object whether its owner is trusted, or why that cannot be told; it is not
/// asked of a reparse point.
pub open spec fn existing_at(attributes: Result<u32, u32>, owner: Result<bool, u32>) -> Existing {
    match attributes {
        Err(code) => if code == ERROR_FILE_NOT_FOUND || code == ERROR_PATH_NOT_FOUND {
            Existing::Absent
        } else {
            Existing::Unreadable { call: "GetFileAttributesW", code }
        },
        Ok(bits) => if bits & FILE_ATTRIBUTE_REPARSE_POINT != 0 {
            Existing::Object { reparse_point: true, trusted_owner: false }
        } else {
            match owner {
                Ok(trusted_owner) => Existing::Object { reparse_point: false, trusted_owner },
                Err(code) => Existing::Unreadable { call: "GetNamedSecurityInfoW", code },
            }
        },
    }
}

/// What the attributes of a path say of it: the answer, or `None` for a real object, whose
/// owner has to be read then.
pub fn read_attributes(attributes: Result<u32, u32>) -> (existing: Option<Existing>)
    ensures
        match existing {
            Some(found) => forall|owner: Result<bool, u32>| #[trigger]
                existing_at(attributes, owner) == found,
            None => attributes matches Ok(bits) && bits & FILE_ATTRIBUTE_REPARSE_POINT == 0,
        },
{
    match attributes {
        Err(code) => {
            if code == ERROR_FILE_NOT_FOUND || code == ERROR_PATH_NOT_FOUND {
                Some(Existing::Absent)
            } else {
                Some(Existing::Unreadable { call: "GetFileAttributesW", code })
            }
        },
        Ok(bits) => {
            if bits & FILE_ATTRIBUTE_REPARSE_POINT != 0 {
                Some(Existing::Object { reparse_point: true, trusted_owner: false })
            } else {
                None
            }
        },
    }
}

/// What stands at a path with the attributes of a real object, once its owner was read, or
/// not, with an OS error code.
pub fn read_owner(owner: Result<bool, u32>) -> (existing: Existing)
    ensures
        forall|bits: u32|
            bits & FILE_ATTRIBUTE_REPARSE_POINT == 0 ==> #[trigger] existing_at(
                Ok(bits),
                owner,
            ) == existing,
{
    match owner {
        Ok(trusted_owner) => Existing::Object { reparse_point: false, trusted_owner },
        Err(code) => Existing::Unreadable { call: "GetNamedSecurityInfoW", code },
    }
}

/// What it means for the instance lock that its file could not be opened.
pub fn lock_open_failed(code: u32, err: IoError) -> (attempt: LockAttempt)
    ensures
        attempt == (if code == ERROR_SHARING_VIOLATION {
            LockAttempt::Held
        } else {
            LockAttempt::OpenFailed(err)
        }),
{
    if code == ERROR_SHARING_VIOLATION {
        LockAttempt::Held
    } else {
        LockAttempt::OpenFailed(err)
    }
}

/// An inspected path may be used: nothing is there, or a real object of a trusted owner.
pub open spec fn is_trusted(found: Existing) -> bool {
    match found {
        Existing::Absent => true,
        Existing::Object { reparse_point, trusted_owner } => !reparse_point && trusted_owner,
        Existing::Unreadable { .. } => false,
    }
}

/// Refuse an existing path that could have been planted by another user before the agent's
/// first start: a reparse point, which would redirect SYSTEM's writes, or an object whose
/// owner could change the DACL back. The agent never takes such a path over.
pub fn assert_trusted_existing(path: &PathBuf, found: Existing) -> (trusted: Result<
    (),
    PlatformError,
>)
    ensures
        trusted is Ok <==> is_trusted(found),
        match found {
            Existing::Absent => trusted is Ok,
            Existing::Object { reparse_point, trusted_owner } => if reparse_point {
                is_refusal(trusted, *path, "a reparse point"@)
            } else if !trusted_owner {
                is_refusal(trusted, *path, "owned by neither Administrators nor SYSTEM"@)
            } else {
                trusted is Ok
            },
            Existing::Unreadable { call, code } => is_os_error(trusted, call@, code),
        },
{
    match found {
        Existing::Absent => Ok(()),
        Existing::Object { reparse_point, trusted_owner } => {
            if reparse_point {
                return Err(untrusted(path, "a reparse point"));
            }
            if !trusted_owner {
                return Err(untrusted(path, "owned by neither Administrators nor SYSTEM"));
            }
            Ok(())
        },
        Existing::Unreadable { call, code } => Err(PlatformError::Os { call, code }),
    }
}

/// The protection of an object.
pub open spec fn object_sddl(object: LogObject) -> Seq<char> {
    match object {
        LogObject::Dir => DIR_SDDL@,
        LogObject::File => FILE_SDDL@,
    }
}

/// The protection that an object is created with and gets again every time.
pub fn sddl(object: LogObject) -> (text: &'static str)
    ensures
        text@ == object_sddl(object),
{
    match object {
        LogObject::Dir => DIR_SDDL,
        LogObject::File => FILE_SDDL,
    }
}

/// Securing a directory or a file, by what has to be done next.
#[derive(Debug)]
pub enum SecureRun {
    /// Look at what stands at the path.
    Inspect,
    /// Make a security descriptor of the object's SDDL.
    MakeDescriptor,
    /// Create the object with that descriptor; the content of an existing file stays.
    Create {
        /// The missing parents have been created already.
        parents_made: bool,
    },
    /// Create the directory's missing parents.
    CreateParents,
    /// Take the DACL out of the descriptor.
    ReadDacl,
    /// Apply the DACL, protected from inheritance, to the object.
    ApplyDacl,
    /// Nothing: done, or failed.
    Ended(Result<(), PlatformError>),
}

/// How an attempt to create an object went.
#[derive(Debug, Clone, Copy, PartialEq, Eq, Structural)]
pub enum Creation {
    /// The object was created or opened.
    Done,
    /// The call failed.
    Failed {
        /// The OS error code.
        code: u32,
        /// The object is there nevertheless.
        exists: bool,
    },
}

/// What a descriptor's DACL turned out to be.
#[derive(Debug, Clone, Copy, PartialEq, Eq, Structural)]
pub enum DaclRead {
    /// It was read.
    Found,
    /// The descriptor has none.
    Missing,
    /// It could not be read, with this OS error code.
    Failed(u32),
}

/// What the steps of securing an object report.
pub enum SecureEvent {
    /// The path was inspected.
    Inspected(Existing),
    /// The descriptor was made, or not, with an OS error code.
    DescriptorMade(Result<(), u32>),
    /// The object was created, or not.
    Created(Creation),
    /// The parents were created, or not.
    ParentsCreated(Result<(), IoError>),
    /// The DACL was read, or not.
    DaclRead(DaclRead),
    /// The DACL was applied, with this OS error code, 0 for success.
    Applied(u32),
}

/// The object is in place, though an attempt to create it failed: a directory that exists, or
/// a file whose present DACL denies the caller write access. Re-applying the DACL is what
/// corrects it.
pub open spec fn is_in_place(object: LogObject, code: u32, exists: bool) -> bool {
    match object {
        LogObject::Dir => code == ERROR_ALREADY_EXISTS,
        LogObject::File => exists,
    }
}

/// `after` is where securing `path` stands once `event` was reported.
pub open spec fn secure_step(
    object: LogObject,
    path: PathBuf,
    before: SecureRun,
    event: SecureEvent,
    after: SecureRun,
) -> bool {
    match (before, event) {
        (SecureRun::Inspect, SecureEvent::Inspected(found)) => match found {
            Existing::Absent => after is MakeDescriptor,
            Existing::Object { reparse_point, trusted_owner } => if reparse_point {
                after matches SecureRun::Ended(result) && is_refusal(
                    result,
                    path,
                    "a reparse point"@,
                )
            } else if !trusted_owner {
                after matches SecureRun::Ended(result) && is_refusal(
                    result,
                    path,
                    "owned by neither Administrators nor SYSTEM"@,
                )
            } else {
                after is MakeDescriptor
            },
            Existing::Unreadable { call, code } => after matches SecureRun::Ended(result)
                && is_os_error(result, call@, code),
        },
        (SecureRun::MakeDescriptor, SecureEvent::DescriptorMade(result)) => match result {
            Ok(_) => after == (SecureRun::Create { parents_made: false }),
            Err(code) => after matches SecureRun::Ended(ended) && is_os_error(
                ended,
                "ConvertStringSecurityDescriptorToSecurityDescriptorW"@,
                code,
            ),
        },
        (SecureRun::Create { parents_made }, SecureEvent::Created(creation)) => match creation {
            Creation::Done => after is ReadDacl,
            Creation::Failed { code, exists } => if is_in_place(object, code, exists) {
                after is ReadDacl
            } else if object is Dir && code == ERROR_PATH_NOT_FOUND && !parents_made {
                after is CreateParents
            } else {
                after matches SecureRun::Ended(ended) && is_os_error(
                    ended,
                    match object {
                        LogObject::Dir => "CreateDirectoryW"@,
                        LogObject::File => "CreateFileW"@,
                    },
                    code,
                )
            },
        },
        (SecureRun::CreateParents, SecureEvent::ParentsCreated(result)) => match result {
            Ok(_) => after == (SecureRun::Create { parents_made: true }),
            Err(err) => after matches SecureRun::Ended(ended) && is_io_error(
                ended,
                "creating parent directories"@,
                err,
            ),
        },
        (SecureRun::ReadDacl, SecureEvent::DaclRead(read)) => match read {
            DaclRead::Found => after is ApplyDacl,
            DaclRead::Missing => after matches SecureRun::Ended(ended) && is_os_error(
                ended,
                "GetSecurityDescriptorDacl (descriptor has no DACL)"@,
                0,
            ),
            DaclRead::Failed(code) => after matches SecureRun::Ended(ended) && is_os_error(
                ended,
                "GetSecurityDescriptorDacl"@,
                code,
            ),
        },
        (SecureRun::ApplyDacl, SecureEvent::Applied(code)) => if code == 0 {
            after == SecureRun::Ended(Ok(()))
        } else {
            after matches SecureRun::Ended(ended) && is_os_error(
                ended,
                "SetNamedSecurityInfoW"@,
                code,
            )
        },
        _ => false,
    }
}

/// After the inspection of the path.
pub fn after_inspect(path: &PathBuf, found: Existing) -> (run: SecureRun)
    ensures
        match found {
            Existing::Absent => run is MakeDescriptor,
            Existing::Object { reparse_point, trusted_owner } => if reparse_point {
                run matches SecureRun::Ended(result) && is_refusal(
                    result,
                    *path,
                    "a reparse point"@,
                )
            } else if !trusted_owner {
                run matches SecureRun::Ended(result) && is_refusal(
                    result,
                    *path,
                    "owned by neither Administrators nor SYSTEM"@,
                )
            } else {
                run is MakeDescriptor
            },
            Existing::Unreadable { call, code } => run matches SecureRun::Ended(result)
                && is_os_error(result, call@, code),
        },
        forall|object: LogObject| #[trigger]
            secure_step(object, *path, SecureRun::Inspect, SecureEvent::Inspected(found), run),
{
    match assert_trusted_existing(path, found) {
        Ok(_) => SecureRun::MakeDescriptor,
        Err(err) => SecureRun::Ended(Err(err)),
    }
}

/// After the attempt to make the descriptor.
pub fn after_descriptor(made: Result<(), u32>) -> (run: SecureRun)
    ensures
        forall|object: LogObject, path: PathBuf| #[trigger]
            secure_step(
                object,
                path,
                SecureRun::MakeDescriptor,
                SecureEvent::DescriptorMade(made),
                run,
            ),
{
    match made {
        Ok(_) => SecureRun::Create { parents_made: false },
        Err(code) => SecureRun::Ended(
            Err(
                PlatformError::Os {
                    call: "ConvertStringSecurityDescriptorToSecurityDescriptorW",
                    code,
                },
            ),
        ),
    }
}

/// After the attempt to create the object.
pub fn after_create(
    object: LogObject,
    parents_made: bool,
    creation: Creation,
) -> (run: SecureRun)
    ensures
        match creation {
            Creation::Done => run is ReadDacl,
            Creation::Failed { code, exists } => if is_in_place(object, code, exists) {
                run is ReadDacl
            } else if object is Dir && code == ERROR_PATH_NOT_FOUND && !parents_made {
                run is CreateParents
            } else {
                run matches SecureRun::Ended(ended) && is_os_error(
                    ended,
                    match object {
                        LogObject::Dir => "CreateDirectoryW"@,
                        LogObject::File => "CreateFileW"@,
                    },
                    code,
                )
            },
        },
        forall|path: PathBuf| #[trigger]
            secure_step(
                object,
                path,
                SecureRun::Create { parents_made },
                SecureEvent::Created(creation),
                run,
            ),
{
    match creation {
        Creation::Done => SecureRun::ReadDacl,
        Creation::Failed { code, exists } => match object {
            LogObject::Dir => {
                if code == ERROR_ALREADY_EXISTS {
                    SecureRun::ReadDacl
                } else if code == ERROR_PATH_NOT_FOUND && !parents_made {
                    SecureRun::CreateParents
                } else {
                    SecureRun::Ended(Err(PlatformError::Os { call: "CreateDirectoryW", code }))
                }
            },
            LogObject::File => {
                if exists {
                    SecureRun::ReadDacl
                } else {
                    SecureRun::Ended(Err(PlatformError::Os { call: "CreateFileW", code }))
                }
            },
        },
    }
}

/// After the attempt to create the missing parents.
pub fn after_parents(created: Result<(), IoError>) -> (run: SecureRun)
    ensures
        forall|object: LogObject, path: PathBuf| #[trigger]
            secure_step(
                object,
                path,
                SecureRun::CreateParents,
                SecureEvent::ParentsCreated(created),
                run,
            ),
{
    match created {
        Ok(_) => SecureRun::Create { parents_made: true },
        Err(err) => SecureRun::Ended(Err(PlatformError::io("creating parent directories", err))),
    }
}

/// After the attempt to take the DACL out of the descriptor.
pub fn after_dacl(read: DaclRead) -> (run: SecureRun)
    ensures
        forall|object: LogObject, path: PathBuf| #[trigger]
            secure_step(object, path, SecureRun::ReadDacl, SecureEvent::DaclRead(read), run),
{
    match read {
        DaclRead::Found => SecureRun::ApplyDacl,
        DaclRead::Missing => SecureRun::Ended(
            Err(
                PlatformError::Os {
                    call: "GetSecurityDescriptorDacl (descriptor has no DACL)",
                    code: 0,
                },
            ),
        ),
        DaclRead::Failed(code) => SecureRun::Ended(
            Err(PlatformError::Os { call: "GetSecurityDescriptorDacl", code }),
        ),
    }
}

/// After the attempt to apply the DACL.
pub fn after_apply(code: u32) -> (run: SecureRun)
    ensures
        if code == 0 {
            run == SecureRun::Ended(Ok(()))
        } else {
            run matches SecureRun::Ended(ended) && is_os_error(
                ended,
                "SetNamedSecurityInfoW"@,
                code,
            )
        },
        forall|object: LogObject, path: PathBuf| #[trigger]
            secure_step(object, path, SecureRun::ApplyDacl, SecureEvent::Applied(code), run),
{
    if code == 0 {
        SecureRun::Ended(Ok(()))
    } else {
        SecureRun::Ended(Err(PlatformError::Os { call: "SetNamedSecurityInfoW", code }))
    }
}

/// `runs` are the places that securing `path` passes through as `events` are reported.
pub open spec fn is_secure_trace(
    object: LogObject,
    path: PathBuf,
    runs: Seq<SecureRun>,
    events: Seq<SecureEvent>,
) -> bool {
    &&& runs.len() == events.len() + 1
    &&& runs[0] is Inspect
    &&& forall|i: int|
        0 <= i < events.len() ==> secure_step(
            object,
            path,
            runs[i],
            #[trigger] events[i],
            runs[i + 1],
        )
}

/// What stands at a path, as far as its protection goes.
pub struct Standing {
    /// It is a reparse point.
    pub reparse_point: bool,
    /// Its owner is BUILTIN\Administrators or SYSTEM.
    pub trusted_owner: bool,
    /// The protection that it carries.
    pub sddl: Seq<char>,
    /// What is in it.
    pub content: Seq<u8>,
}

/// What is in the object at the path; there is nothing in an absent one.
pub open spec fn content_at(world: Option<Standing>) -> Seq<u8> {
    match world {
        Some(there) => there.content,
        None => Seq::empty(),
    }
}

/// A real object of a trusted owner with the protected DACL.
pub open spec fn is_locked(there: Standing, object: LogObject) -> bool {
    !there.reparse_point && there.trusted_owner && there.sddl == object_sddl(object)
}

/// An inspection tells the truth of what stands at the path.
pub open spec fn is_true_of(found: Existing, world: Option<Standing>) -> bool {
    match found {
        Existing::Absent => world is None,
        Existing::Object { reparse_point, trusted_owner } => world matches Some(there)
            && reparse_point == there.reparse_point && trusted_owner == there.trusted_owner,
        Existing::Unreadable { .. } => true,
    }
}

/// What a step of securing an object does to what stands at the path: an object that an
/// elevated agent creates belongs to Administrators or SYSTEM and is born empty and with the
/// descriptor it is created with; an existing one is not changed by opening it, and a failed call says
/// truly whether one is there.
pub open spec fn world_step(
    object: LogObject,
    run: SecureRun,
    event: SecureEvent,
    before: Option<Standing>,
    after: Option<Standing>,
) -> bool {
    match (run, event) {
        (SecureRun::Inspect, SecureEvent::Inspected(found)) => after == before && is_true_of(
            found,
            before,
        ),
        (SecureRun::Create { .. }, SecureEvent::Created(Creation::Done)) => after == match before {
            Some(there) => Some(there),
            None => Some(
                Standing {
                    reparse_point: false,
                    trusted_owner: true,
                    sddl: object_sddl(object),
                    content: Seq::empty(),
                },
            ),
        },
        (SecureRun::Create { .. }, SecureEvent::Created(Creation::Failed { code, exists })) => after
            == before && (is_in_place(object, code, exists) ==> before is Some),
        (SecureRun::ApplyDacl, SecureEvent::Applied(code)) => if code == 0 {
            before matches Some(there) && after == Some(
                Standing { sddl: object_sddl(object), ..there },
            )
        } else {
            after == before
        },
        _ => after == before,
    }
}

/// `worlds` are what stands at the path while securing it passes through `runs`.
pub open spec fn is_world_trace(
    object: LogObject,
    runs: Seq<SecureRun>,
    events: Seq<SecureEvent>,
    worlds: Seq<Option<Standing>>,
) -> bool {
    &&& worlds.len() == runs.len()
    &&& forall|i: int|
        0 <= i < events.len() ==> world_step(
            object,
            runs[i],
            #[trigger] events[i],
            worlds[i],
            worlds[i + 1],
        )
}

/// Where securing stands, and what stands at the path: nothing has changed before the path
/// was found trusted, and from then on it is absent or a real object of a trusted owner. What
/// was in it stays.
spec fn is_sound(
    object: LogObject,
    run: SecureRun,
    start: Option<Standing>,
    world: Option<Standing>,
) -> bool {
    let own = world matches Some(there) && !there.reparse_point && there.trusted_owner && (
    start is None ==> there.sddl == object_sddl(object));
    &&& content_at(world) == content_at(start)
    &&& start is Some ==> world is Some
    &&& match run {
        SecureRun::Inspect => world == start,
        SecureRun::MakeDescriptor => world is None || own,
        SecureRun::Create { .. } => world is None || own,
        SecureRun::CreateParents => world is None || own,
        SecureRun::ReadDacl => own,
        SecureRun::ApplyDacl => own,
        SecureRun::Ended(Ok(_)) => own && world->0.sddl == object_sddl(object),
        SecureRun::Ended(Err(_)) => start is None ==> (world is None || own),
    }
}

proof fn lemma_secure_worlds(
    object: LogObject,
    path: PathBuf,
    runs: Seq<SecureRun>,
    events: Seq<SecureEvent>,
    worlds: Seq<Option<Standing>>,
    at: int,
)
    requires
        is_secure_trace(object, path, runs, events),
        is_world_trace(object, runs, events, worlds),
        0 <= at < runs.len(),
    ensures
        is_sound(object, runs[at], worlds[0], worlds[at]),
    decreases at,
{
    if at > 0 {
        lemma_secure_worlds(object, path, runs, events, worlds, at - 1);
        assert(secure_step(object, path, runs[at - 1], events[at - 1], runs[at]));
        assert(world_step(object, runs[at - 1], events[at - 1], worlds[at - 1], worlds[at]));
    }
}

/// A secured path is locked: it holds a real object of a trusted owner that carries the
/// protected DACL, whether it was created just now or was there before. What was in an
/// existing object is still in it, byte for byte, and a new one is empty.
pub proof fn secured_means_locked(
    object: LogObject,
    path: PathBuf,
    runs: Seq<SecureRun>,
    events: Seq<SecureEvent>,
    worlds: Seq<Option<Standing>>,
)
    requires
        is_secure_trace(object, path, runs, events),
        is_world_trace(object, runs, events, worlds),
        runs.last() == SecureRun::Ended(Ok(())),
    ensures
        worlds.last() matches Some(there) && is_locked(there, object) && there.content
            == content_at(worlds[0]),
{
    lemma_secure_worlds(object, path, runs, events, worlds, runs.len() - 1);
}

/// A new object is born locked: at no moment of its existence does it carry another
/// protection.
pub proof fn new_objects_are_born_locked(
    object: LogObject,
    path: PathBuf,
    runs: Seq<SecureRun>,
    events: Seq<SecureEvent>,
    worlds: Seq<Option<Standing>>,
    at: int,
)
    requires
        is_secure_trace(object, path, runs, events),
        is_world_trace(object, runs, events, worlds),
        worlds[0] is None,
        0 <= at < worlds.len(),
    ensures
        worlds[at] matches Some(there) ==> there.trusted_owner && there.sddl == object_sddl(object),
{
    lemma_secure_worlds(object, path, runs, events, worlds, at);
}

/// Nothing that was in an object is lost while it is being secured, whether that succeeds or
/// not: at every moment the object is there with what was in it.
pub proof fn content_is_kept(
    object: LogObject,
    path: PathBuf,
    runs: Seq<SecureRun>,
    events: Seq<SecureEvent>,
    worlds: Seq<Option<Standing>>,
    at: int,
)
    requires
        is_secure_trace(object, path, runs, events),
        is_world_trace(object, runs, events, worlds),
        0 <= at < worlds.len(),
    ensures
        content_at(worlds[at]) == content_at(worlds[0]),
        worlds[0] is Some ==> worlds[at] is Some,
{
    lemma_secure_worlds(object, path, runs, events, worlds, at);
}

/// Securing is idempotent: an object that is locked already is not changed, not even for a
/// moment.
pub proof fn locked_objects_stay_as_they_are(
    object: LogObject,
    path: PathBuf,
    runs: Seq<SecureRun>,
    events: Seq<SecureEvent>,
    worlds: Seq<Option<Standing>>,
    at: int,
)
    requires
        is_secure_trace(object, path, runs, events),
        is_world_trace(object, runs, events, worlds),
        worlds[0] matches Some(there) && is_locked(there, object),
        0 <= at < worlds.len(),
    ensures
        worlds[at] == worlds[0],
    decreases at,
{
    if at > 0 {
        locked_objects_stay_as_they_are(object, path, runs, events, worlds, at - 1);
        assert(secure_step(object, path, runs[at - 1], events[at - 1], runs[at]));
        assert(world_step(object, runs[at - 1], events[at - 1], worlds[at - 1], worlds[at]));
    }
}

/// A planted path is refused and left untouched: where a reparse point or an untrusted
/// owner's object stands, securing fails and changes nothing.
pub proof fn planted_paths_are_left_untouched(
    object: LogObject,
    path: PathBuf,
    runs: Seq<SecureRun>,
    events: Seq<SecureEvent>,
    worlds: Seq<Option<Standing>>,
    at: int,
)
    requires
        is_secure_trace(object, path, runs, events),
        is_world_trace(object, runs, events, worlds),
        worlds[0] matches Some(there) && (there.reparse_point || !there.trusted_owner),
        0 <= at < runs.len(),
    ensures
        worlds[at] == worlds[0],
        runs[at] is Inspect || runs[at] matches SecureRun::Ended(Err(_)),
    decreases at,
{
    if at > 0 {
        planted_paths_are_left_untouched(object, path, runs, events, worlds, at - 1);
        assert(secure_step(object, path, runs[at - 1], events[at - 1], runs[at]));
        assert(world_step(object, runs[at - 1], events[at - 1], worlds[at - 1], worlds[at]));
    }
}

/// What reading an object's protection back gave.
#[derive(Debug, PartialEq, Eq)]
pub enum ProtectionRead {
    /// There was no descriptor, with this OS error code.
    NoDescriptor(u32),
    /// The descriptor could not be put into words, with this OS error code.
    NoText(u32),
    /// The descriptor's SDDL, as the system's buffer holds it.
    Text(String),
}

/// `text` without the NUL characters that it ends in.
pub open spec fn without_trailing_nul(text: Seq<char>) -> Seq<char>
    decreases text.len(),
{
    if text.len() > 0 && text.last() == '\0' {
        without_trailing_nul(text.drop_last())
    } else {
        text
    }
}

/// The effective DACL as an SDDL string, e.g. `D:P(A;;FA;;;BA)(A;;FA;;;SY)` (Windows may
/// render the flags as `PAI`).
pub fn describe_protection(read: ProtectionRead) -> (described: Result<String, PlatformError>)
    ensures
        match read {
            ProtectionRead::NoDescriptor(code) => is_os_error(
                described,
                "GetNamedSecurityInfoW"@,
                code,
            ),
            ProtectionRead::NoText(code) => is_os_error(
                described,
                "ConvertSecurityDescriptorToStringSecurityDescriptorW"@,
                code,
            ),
            ProtectionRead::Text(text) => described matches Ok(sddl) && sddl@
                == without_trailing_nul(text@),
        },
{
    match read {
        ProtectionRead::NoDescriptor(code) => Err(
            PlatformError::Os { call: "GetNamedSecurityInfoW", code },
        ),
        ProtectionRead::NoText(code) => Err(
            PlatformError::Os {
                call: "ConvertSecurityDescriptorToStringSecurityDescriptorW",
                code,
            },
        ),
        ProtectionRead::Text(text) => {
            let chars = chars_of(text.as_str());
            let mut to: usize = chars.len();
            proof {
                assert(chars@.take(chars@.len() as int) == chars@);
            }
            while to > 0 && chars[to - 1] == '\0'
                invariant
                    to <= chars@.len(),
                    without_trailing_nul(chars@) == without_trailing_nul(chars@.take(to as int)),
                decreases to,
            {
                proof {
                    assert(chars@.take(to as int).drop_last() == chars@.take(to - 1));
                }
                to = to - 1;
            }
            proof {
                assert(chars@.subrange(0, to as int) == chars@.take(to as int));
            }
            Ok(string_of(&chars, 0, to))
        },
    }
}

/// What reading the process token gave.
#[derive(Debug, Clone, Copy, PartialEq, Eq, Structural)]
pub enum TokenRead {
    /// The token could not be opened, with this OS error code.
    NoToken(u32),
    /// The token could not be read, with this OS error code.
    NoInformation(u32),
    /// The token's elevation, nonzero when it is elevated.
    Elevation(u32),
}

/// True when the current token is elevated (a full administrator token or SYSTEM).
pub fn is_privileged(read: TokenRead) -> (privileged: Result<bool, PlatformError>)
    ensures
        match read {
            TokenRead::NoToken(code) => is_os_error(privileged, "OpenProcessToken"@, code),
            TokenRead::NoInformation(code) => is_os_error(
                privileged,
                "GetTokenInformation"@,
                code,
            ),
            TokenRead::Elevation(elevated) => privileged == Ok::<bool, PlatformError>(
                elevated != 0,
            ),
        },
{
    match read {
        TokenRead::NoToken(code) => Err(PlatformError::Os { call: "OpenProcessToken", code }),
        TokenRead::NoInformation(code) => Err(
            PlatformError::Os { call: "GetTokenInformation", code },
        ),
        TokenRead::Elevation(elevated) => Ok(elevated != 0),
    }
}

/// How an attempt to relaunch with elevation went.
#[derive(Debug, PartialEq, Eq)]
pub enum Relaunch {
    /// The agent's own executable could not be located.
    NoExecutable(IoError),
    /// The shell refused, with this OS error code.
    Refused(u32),
    /// The shell started something but gave no handle to wait for.
    NoProcess,
    /// The elevated instance ended with this exit code.
    Exited(u32),
}

/// The exit code as a signed number: the same 32 bits.
pub open spec fn signed_exit_code(code: u32) -> int {
    if code < 0x8000_0000 {
        code as int
    } else {
        code - 0x1_0000_0000
    }
}

/// The exit code of the elevated instance, or why there is none: `ElevationDeclined` if the
/// user cancelled the prompt, `ElevationBlockedByPolicy` if policy did not even offer one.
pub fn relaunch_privileged(relaunch: Relaunch) -> (code: Result<i32, PlatformError>)
    ensures
        match relaunch {
            Relaunch::NoExecutable(err) => is_io_error(code, "locating own executable"@, err),
            Relaunch::Refused(number) => if number == ERROR_CANCELLED {
                code matches Err(PlatformError::ElevationDeclined)
            } else if number == ERROR_ACCESS_DISABLED_BY_POLICY {
                code matches Err(PlatformError::ElevationBlockedByPolicy)
            } else {
                is_os_error(code, "ShellExecuteExW"@, number)
            },
            Relaunch::NoProcess => is_os_error(
                code,
                "ShellExecuteExW (no process handle returned)"@,
                0,
            ),
            Relaunch::Exited(number) => code matches Ok(c) && c == signed_exit_code(number),
        },
{
    match relaunch {
        Relaunch::NoExecutable(err) => Err(PlatformError::io("locating own executable", err)),
        Relaunch::Refused(code) => {
            if code == ERROR_CANCELLED {
                Err(PlatformError::ElevationDeclined)
            } else if code == ERROR_ACCESS_DISABLED_BY_POLICY {
                Err(PlatformError::ElevationBlockedByPolicy)
            } else {
                Err(PlatformError::Os { call: "ShellExecuteExW", code })
            }
        },
        Relaunch::NoProcess => Err(
            PlatformError::Os { call: "ShellExecuteExW (no process handle returned)", code: 0 },
        ),
        Relaunch::Exited(code) => {
            if code < 0x8000_0000 {
                Ok(code as i32)
            } else {
                Ok((code as i64 - 0x1_0000_0000) as i32)
            }
        },
    }
}

} // verus!
