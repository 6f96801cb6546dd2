//! Unix: root-owned `0700` directory and `0600` file, effective-user privilege check, no
//! self-elevation (the user runs with `sudo`).

use vstd::prelude::*;

use std::path::PathBuf;

use crate::paths;
use crate::paths::{absolute_parts, absolute_text, is_plain_name, path_parts, path_text};
use crate::platform::{
    is_io_error, is_refusal, untrusted, IoError, IoErrorKind, LogObject, PlatformError,
};
use crate::text::{
    decimal, decimal_string, radix_string, radix_text, zero_padded, zero_padded_string,
};

verus! {

/// File name of the child binary next to the agent executable.
pub const CHILD_BINARY_NAME: &'static str = "logger-child";

/// There is no service control manager here, so `--install`/`--uninstall` need no privilege;
/// they report the operation as unsupported instead.
pub const SERVICE_MANAGEMENT_NEEDS_PRIVILEGE: bool = false;

/// The log directory's mode.
pub const DIR_MODE: u32 = 0o700;

/// A log file's mode.
pub const FILE_MODE: u32 = 0o600;

/// `/var/log/flamingo-agent`.
pub fn default_log_dir() -> (dir: PathBuf)
    ensures
        path_text(dir) == "/var/log/flamingo-agent"@,
        path_parts(dir) == absolute_parts(seq!["var"@, "log"@, "flamingo-agent"@]),
{
    proof {
        reveal_strlit("/var/log/flamingo-agent");
        reveal_strlit("var");
        reveal_strlit("log");
        reveal_strlit("flamingo-agent");
        let names = seq!["var"@, "log"@, "flamingo-agent"@];
        reveal_with_fuel(absolute_text, 4);
        assert(names.drop_last() == seq!["var"@, "log"@]);
        assert(names.drop_last().drop_last() == seq!["var"@]);
        assert(names.drop_last().drop_last().drop_last() == Seq::<Seq<char>>::empty());
        assert(absolute_text(names) == "/var/log/flamingo-agent"@);
        assert("var"@.len() == 3 && "log"@.len() == 3 && "flamingo-agent"@.len() == 14);
        assert forall|i: int| 0 <= i < names.len() implies is_plain_name(names[i]) by {
            assert(names[0] == "var"@ && names[1] == "log"@ && names[2] == "flamingo-agent"@);
        }
    }
    paths::path_from("/var/log/flamingo-agent")
}

/// True when the effective user is root.
pub fn is_privileged(euid: u32) -> (privileged: Result<bool, PlatformError>)
    ensures
        privileged == Ok::<bool, PlatformError>(euid == 0),
{
    Ok(euid == 0)
}

/// There is no portable way to acquire root from a running process; the caller must use sudo.
pub fn relaunch_privileged(_args: &[String]) -> (code: Result<i32, PlatformError>)
    ensures
        code matches Err(PlatformError::Unsupported(what)) && what@ == "self-elevation"@,
{
    Err(PlatformError::Unsupported("self-elevation"))
}

/// What is known of an existing file or directory, without following a symbolic link.
#[derive(Debug, Clone, Copy, PartialEq, Eq, Structural)]
pub struct Existing {
    /// It is a symbolic link.
    pub is_symlink: bool,
    /// Its owner.
    pub uid: u32,
}

/// An inspected path may be used: nothing is there, or a real object of the effective user.
pub open spec fn is_trusted(found: Result<Existing, IoError>, euid: u32) -> bool {
    match found {
        Ok(existing) => !existing.is_symlink && existing.uid == euid,
        Err(err) => err.kind == IoErrorKind::NotFound,
    }
}

/// Refuse an existing path that could have been planted by another user before the agent's
/// first start: a symbolic link (which would redirect root's writes anywhere) or an object
/// owned by someone other than the effective user. The agent never takes such a path over.
pub fn assert_trusted_existing(
    path: &PathBuf,
    found: Result<Existing, IoError>,
    euid: u32,
) -> (trusted: Result<(), PlatformError>)
    ensures
        trusted is Ok <==> is_trusted(found, euid),
        match found {
            Err(err) => err.kind == IoErrorKind::NotFound || is_io_error(
                trusted,
                "inspecting existing log location"@,
                err,
            ),
            Ok(existing) => if existing.is_symlink {
                is_refusal(trusted, *path, "a symbolic link"@)
            } else if existing.uid != euid {
                is_refusal(trusted, *path, "owned by another user"@)
            } else {
                trusted is Ok
            },
        },
{
    match found {
        Err(err) => {
            if err.is_not_found() {
                Ok(())
            } else {
                Err(PlatformError::io("inspecting existing log location", err))
            }
        },
        Ok(existing) => {
            if existing.is_symlink {
                return Err(untrusted(path, "a symbolic link"));
            }
            if existing.uid != euid {
                return Err(untrusted(path, "owned by another user"));
            }
            Ok(())
        },
    }
}

/// Securing a directory or a file, by what has to be done next.
#[derive(Debug)]
pub enum SecureRun {
    /// Look at what the path names, without following a symbolic link.
    Inspect,
    /// Create the object with this mode where there is none yet: a directory with its
    /// parents, a file without touching the content of an existing one.
    Create {
        /// The mode it is born with.
        mode: u32,
    },
    /// Set the object's mode.
    SetMode {
        /// The mode.
        mode: u32,
    },
    /// Hand the object to root's user and group.
    ChownRoot,
    /// Nothing: done, or failed.
    Ended(Result<(), PlatformError>),
}

/// What the steps of securing an object report.
pub enum SecureEvent {
    /// The path was inspected.
    Inspected(Result<Existing, IoError>),
    /// The object was created or opened, or not.
    Created(Result<(), IoError>),
    /// The mode was set, or not.
    ModeSet(Result<(), IoError>),
    /// The object was handed to root, or not.
    Chowned(Result<(), IoError>),
}

/// The mode of an object.
pub open spec fn object_mode(object: LogObject) -> u32 {
    match object {
        LogObject::Dir => DIR_MODE,
        LogObject::File => FILE_MODE,
    }
}

/// `after` is where securing `path` stands once `event` was reported, for a process of the
/// effective user `euid`.
pub open spec fn secure_step(
    object: LogObject,
    path: PathBuf,
    euid: u32,
    before: SecureRun,
    event: SecureEvent,
    after: SecureRun,
) -> bool {
    match (before, event) {
        (SecureRun::Inspect, SecureEvent::Inspected(found)) => if is_trusted(found, euid) {
            after == (SecureRun::Create { mode: object_mode(object) })
        } else {
            after matches SecureRun::Ended(result) && match found {
                Err(err) => is_io_error(result, "inspecting existing log location"@, err),
                Ok(existing) => is_refusal(
                    result,
                    path,
                    if existing.is_symlink {
                        "a symbolic link"@
                    } else {
                        "owned by another user"@
                    },
                ),
            }
        },
        (SecureRun::Create { mode }, SecureEvent::Created(result)) => match result {
            Ok(_) => after == (SecureRun::SetMode { mode }),
            Err(err) => after matches SecureRun::Ended(ended) && is_io_error(
                ended,
                match object {
                    LogObject::Dir => "creating log directory"@,
                    LogObject::File => "creating child log file"@,
                },
                err,
            ),
        },
        (SecureRun::SetMode { mode }, SecureEvent::ModeSet(result)) => match result {
            Ok(_) => after == if euid == 0 {
                SecureRun::ChownRoot
            } else {
                SecureRun::Ended(Ok(()))
            },
            Err(err) => after matches SecureRun::Ended(ended) && is_io_error(
                ended,
                match object {
                    LogObject::Dir => "setting log directory mode"@,
                    LogObject::File => "setting child log mode"@,
                },
                err,
            ),
        },
        (SecureRun::ChownRoot, SecureEvent::Chowned(result)) => match result {
            Ok(_) => after == SecureRun::Ended(Ok(())),
            Err(err) => after matches SecureRun::Ended(ended) && is_io_error(
                ended,
                "changing owner to root"@,
                err,
            ),
        },
        _ => false,
    }
}

/// After the inspection of the path.
pub fn after_inspect(
    object: LogObject,
    path: &PathBuf,
    euid: u32,
    found: Result<Existing, IoError>,
) -> (run: SecureRun)
    ensures
        secure_step(object, *path, euid, SecureRun::Inspect, SecureEvent::Inspected(found), run),
{
    match assert_trusted_existing(path, found, euid) {
        Ok(_) => SecureRun::Create {
            mode: match object {
                LogObject::Dir => DIR_MODE,
                LogObject::File => FILE_MODE,
            },
        },
        Err(err) => SecureRun::Ended(Err(err)),
    }
}

/// After the attempt to create the object.
pub fn after_create(object: LogObject, mode: u32, created: Result<(), IoError>) -> (run: SecureRun)
    ensures
        match created {
            Ok(_) => run == (SecureRun::SetMode { mode }),
            Err(err) => run matches SecureRun::Ended(ended) && is_io_error(
                ended,
                match object {
                    LogObject::Dir => "creating log directory"@,
                    LogObject::File => "creating child log file"@,
                },
                err,
            ),
        },
        forall|path: PathBuf, euid: u32| #[trigger]
            secure_step(
                object,
                path,
                euid,
                SecureRun::Create { mode },
                SecureEvent::Created(created),
                run,
            ),
{
    match created {
        Ok(_) => SecureRun::SetMode { mode },
        Err(err) => {
            let context = match object {
                LogObject::Dir => "creating log directory",
                LogObject::File => "creating child log file",
            };
            SecureRun::Ended(Err(PlatformError::io(context, err)))
        },
    }
}

/// After the attempt to set the mode.
pub fn after_set_mode(
    object: LogObject,
    euid: u32,
    mode: u32,
    set: Result<(), IoError>,
) -> (run: SecureRun)
    ensures
        match set {
            Ok(_) => run == if euid == 0 {
                SecureRun::ChownRoot
            } else {
                SecureRun::Ended(Ok(()))
            },
            Err(err) => run matches SecureRun::Ended(ended) && is_io_error(
                ended,
                match object {
                    LogObject::Dir => "setting log directory mode"@,
                    LogObject::File => "setting child log mode"@,
                },
                err,
            ),
        },
        forall|path: PathBuf| #[trigger]
            secure_step(
                object,
                path,
                euid,
                SecureRun::SetMode { mode },
                SecureEvent::ModeSet(set),
                run,
            ),
{
    match set {
        Ok(_) => {
            if euid == 0 {
                SecureRun::ChownRoot
            } else {
                SecureRun::Ended(Ok(()))
            }
        },
        Err(err) => {
            let context = match object {
                LogObject::Dir => "setting log directory mode",
                LogObject::File => "setting child log mode",
            };
            SecureRun::Ended(Err(PlatformError::io(context, err)))
        },
    }
}

/// After the attempt to hand the object to root.
pub fn after_chown(chowned: Result<(), IoError>) -> (run: SecureRun)
    ensures
        forall|object: LogObject, path: PathBuf, euid: u32| #[trigger]
            secure_step(
                object,
                path,
                euid,
                SecureRun::ChownRoot,
                SecureEvent::Chowned(chowned),
                run,
            ),
{
    match chowned {
        Ok(_) => SecureRun::Ended(Ok(())),
        Err(err) => SecureRun::Ended(Err(PlatformError::io("changing owner to root", err))),
    }
}

/// `runs` are the places that securing `path` passes through as `events` are reported.
pub open spec fn is_secure_trace(
    object: LogObject,
    path: PathBuf,
    euid: u32,
    runs: Seq<SecureRun>,
    events: Seq<SecureEvent>,
) -> bool {
    &&& runs.len() == events.len() + 1
    &&& runs[0] is Inspect
    &&& forall|i: int|
        0 <= i < events.len() ==> secure_step(
            object,
            path,
            euid,
            runs[i],
            #[trigger] events[i],
            runs[i + 1],
        )
}

/// What stands at a path, as far as its protection goes.
pub struct Standing {
    /// It is a symbolic link.
    pub is_symlink: bool,
    /// Its owner.
    pub uid: u32,
    /// Its group.
    pub gid: u32,
    /// Its permission bits.
    pub mode: u32,
    /// What is in it.
    pub content: Seq<u8>,
}

/// What is in the object at the path; there is nothing in an absent one.
pub open spec fn content_at(world: Option<Standing>) -> Seq<u8> {
    match world {
        Some(there) => there.content,
        None => Seq::empty(),
    }
}

/// A real object of `euid` with the mode of `object`, in root's group where `euid` is root.
pub open spec fn is_locked(there: Standing, object: LogObject, euid: u32) -> bool {
    &&& !there.is_symlink
    &&& there.uid == euid
    &&& euid == 0 ==> there.gid == 0
    &&& there.mode == object_mode(object)
}

/// No permission is granted that `mode` withholds.
pub open spec fn is_within(granted: u32, mode: u32) -> bool {
    granted & !mode == 0
}

/// An inspection tells the truth of what stands at the path.
pub open spec fn is_true_of(found: Result<Existing, IoError>, world: Option<Standing>) -> bool {
    match found {
        Ok(existing) => world matches Some(there) && existing.is_symlink == there.is_symlink
            && existing.uid == there.uid,
        Err(err) => err.kind == IoErrorKind::NotFound ==> world is None,
    }
}

/// What a step of securing an object does to what stands at the path: an object that is
/// created belongs to the creator and is born empty and with its mode, less what the umask
/// takes away; an existing one is not changed by opening it. Root's user and group are both
/// number 0.
pub open spec fn world_step(
    euid: u32,
    run: SecureRun,
    event: SecureEvent,
    before: Option<Standing>,
    after: Option<Standing>,
) -> bool {
    match (run, event) {
        (SecureRun::Inspect, SecureEvent::Inspected(found)) => after == before && is_true_of(
            found,
            before,
        ),
        (SecureRun::Create { mode }, SecureEvent::Created(Ok(_))) => match before {
            Some(_) => after == before,
            None => after matches Some(there) && !there.is_symlink && there.uid == euid
                && is_within(there.mode, mode) && there.content == Seq::<u8>::empty(),
        },
        (SecureRun::SetMode { mode }, SecureEvent::ModeSet(Ok(_))) => before matches Some(there)
            && after == Some(Standing { mode, ..there }),
        (SecureRun::ChownRoot, SecureEvent::Chowned(Ok(_))) => before matches Some(there) && after
            == Some(Standing { uid: 0, gid: 0, ..there }),
        _ => after == before,
    }
}

/// `worlds` are what stands at the path while securing it passes through `runs`.
pub open spec fn is_world_trace(
    euid: u32,
    runs: Seq<SecureRun>,
    events: Seq<SecureEvent>,
    worlds: Seq<Option<Standing>>,
) -> bool {
    &&& worlds.len() == runs.len()
    &&& forall|i: int|
        0 <= i < events.len() ==> world_step(
            euid,
            runs[i],
            #[trigger] events[i],
            worlds[i],
            worlds[i + 1],
        )
}

/// Where securing stands, and what stands at the path: nothing has changed before the path
/// was found trusted, and from then on it is absent or a real object of the effective user.
/// What was in it stays.
spec fn is_sound(
    object: LogObject,
    euid: u32,
    run: SecureRun,
    start: Option<Standing>,
    world: Option<Standing>,
) -> bool {
    let own = world matches Some(there) && !there.is_symlink && there.uid == euid && (start is None
        ==> is_within(there.mode, object_mode(object)));
    &&& content_at(world) == content_at(start)
    &&& start is Some ==> world is Some && (euid == 0 || world->0.gid == start->0.gid)
    &&& match run {
        SecureRun::Inspect => world == start,
        SecureRun::Create { mode } => world == start && mode == object_mode(object) && (world is None
            || own),
        SecureRun::SetMode { mode } => mode == object_mode(object) && own,
        SecureRun::ChownRoot => own && euid == 0 && world->0.mode == object_mode(object),
        SecureRun::Ended(Ok(_)) => own && is_locked(world->0, object, euid),
        SecureRun::Ended(Err(_)) => start is None ==> (world is None || own),
    }
}

proof fn lemma_secure_worlds(
    object: LogObject,
    path: PathBuf,
    euid: u32,
    runs: Seq<SecureRun>,
    events: Seq<SecureEvent>,
    worlds: Seq<Option<Standing>>,
    at: int,
)
    requires
        is_secure_trace(object, path, euid, runs, events),
        is_world_trace(euid, runs, events, worlds),
        0 <= at < runs.len(),
    ensures
        is_sound(object, euid, runs[at], worlds[0], worlds[at]),
    decreases at,
{
    if at > 0 {
        lemma_secure_worlds(object, path, euid, runs, events, worlds, at - 1);
        assert(secure_step(object, path, euid, runs[at - 1], events[at - 1], runs[at]));
        assert(world_step(euid, runs[at - 1], events[at - 1], worlds[at - 1], worlds[at]));
        assert(is_within(0o700, 0o700)) by {
            assert(0o700u32 & !0o700u32 == 0) by (bit_vector);
        }
        assert(is_within(0o600, 0o600)) by {
            assert(0o600u32 & !0o600u32 == 0) by (bit_vector);
        }
    }
}

/// A secured path is locked: it holds a real object of the effective user, which is root
/// where the agent runs privileged, with root's group then, and with mode `0700` or `0600`
/// and nothing more. What was in an existing object is still in it, byte for byte, and a new
/// one is empty.
pub proof fn secured_means_locked(
    object: LogObject,
    path: PathBuf,
    euid: u32,
    runs: Seq<SecureRun>,
    events: Seq<SecureEvent>,
    worlds: Seq<Option<Standing>>,
)
    requires
        is_secure_trace(object, path, euid, runs, events),
        is_world_trace(euid, runs, events, worlds),
        runs.last() == SecureRun::Ended(Ok(())),
    ensures
        worlds.last() matches Some(there) && is_locked(there, object, euid) && there.content
            == content_at(worlds[0]),
        euid != 0 && worlds[0] is Some ==> worlds.last()->0.gid == worlds[0]->0.gid,
{
    lemma_secure_worlds(object, path, euid, runs, events, worlds, runs.len() - 1);
}

/// A new object is born locked: at no moment of its existence does it grant more than its
/// mode.
pub proof fn new_objects_are_born_locked(
    object: LogObject,
    path: PathBuf,
    euid: u32,
    runs: Seq<SecureRun>,
    events: Seq<SecureEvent>,
    worlds: Seq<Option<Standing>>,
    at: int,
)
    requires
        is_secure_trace(object, path, euid, runs, events),
        is_world_trace(euid, runs, events, worlds),
        worlds[0] is None,
        0 <= at < worlds.len(),
    ensures
        worlds[at] matches Some(there) ==> there.uid == euid && is_within(
            there.mode,
            object_mode(object),
        ),
{
    lemma_secure_worlds(object, path, euid, runs, events, worlds, at);
}

/// Nothing that was in an object is lost while it is being secured, whether that succeeds or
/// not: at every moment the object is there with what was in it.
pub proof fn content_is_kept(
    object: LogObject,
    path: PathBuf,
    euid: u32,
    runs: Seq<SecureRun>,
    events: Seq<SecureEvent>,
    worlds: Seq<Option<Standing>>,
    at: int,
)
    requires
        is_secure_trace(object, path, euid, runs, events),
        is_world_trace(euid, runs, events, worlds),
        0 <= at < worlds.len(),
    ensures
        content_at(worlds[at]) == content_at(worlds[0]),
        worlds[0] is Some ==> worlds[at] is Some,
{
    lemma_secure_worlds(object, path, euid, runs, events, worlds, at);
}

/// Securing is idempotent: an object that is locked already is not changed, not even for a
/// moment.
pub proof fn locked_objects_stay_as_they_are(
    object: LogObject,
    path: PathBuf,
    euid: u32,
    runs: Seq<SecureRun>,
    events: Seq<SecureEvent>,
    worlds: Seq<Option<Standing>>,
    at: int,
)
    requires
        is_secure_trace(object, path, euid, runs, events),
        is_world_trace(euid, runs, events, worlds),
        worlds[0] matches Some(there) && is_locked(there, object, euid),
        0 <= at < worlds.len(),
    ensures
        worlds[at] == worlds[0],
    decreases at,
{
    if at > 0 {
        locked_objects_stay_as_they_are(object, path, euid, runs, events, worlds, at - 1);
        lemma_secure_worlds(object, path, euid, runs, events, worlds, at - 1);
        assert(secure_step(object, path, euid, runs[at - 1], events[at - 1], runs[at]));
        assert(world_step(euid, runs[at - 1], events[at - 1], worlds[at - 1], worlds[at]));
    }
}

/// A planted path is refused and left untouched: where a symbolic link or another user's
/// object stands, securing fails and changes nothing.
pub proof fn planted_paths_are_left_untouched(
    object: LogObject,
    path: PathBuf,
    euid: u32,
    runs: Seq<SecureRun>,
    events: Seq<SecureEvent>,
    worlds: Seq<Option<Standing>>,
    at: int,
)
    requires
        is_secure_trace(object, path, euid, runs, events),
        is_world_trace(euid, runs, events, worlds),
        worlds[0] matches Some(there) && (there.is_symlink || there.uid != euid),
        0 <= at < runs.len(),
    ensures
        worlds[at] == worlds[0],
        runs[at] is Inspect || runs[at] matches SecureRun::Ended(Err(_)),
    decreases at,
{
    if at > 0 {
        planted_paths_are_left_untouched(object, path, euid, runs, events, worlds, at - 1);
        assert(secure_step(object, path, euid, runs[at - 1], events[at - 1], runs[at]));
        assert(world_step(euid, runs[at - 1], events[at - 1], worlds[at - 1], worlds[at]));
    }
}

/// The mode and owner of a file.
#[derive(Debug, Clone, Copy, PartialEq, Eq, Structural)]
pub struct Ownership {
    /// The mode, with the file type in front of the permission bits.
    pub mode: u32,
    /// The owning user.
    pub uid: u32,
    /// The owning group.
    pub gid: u32,
}

/// The protection summary of a file: the twelve permission bits in octal, and the owner.
pub open spec fn protection_text(found: Ownership) -> Seq<char> {
    "mode="@ + zero_padded(radix_text((found.mode % 4096) as nat, 8), 4) + " uid="@ + decimal(
        found.uid as nat,
    ) + " gid="@ + decimal(found.gid as nat)
}

/// Human-readable protection summary, e.g. `mode=0600 uid=0 gid=0`.
pub fn describe_protection(found: Result<Ownership, IoError>) -> (described: Result<
    String,
    PlatformError,
>)
    ensures
        match found {
            Ok(found) => described matches Ok(text) && text@ == protection_text(found),
            Err(err) => is_io_error(described, "reading file metadata"@, err),
        },
{
    match found {
        Ok(found) => {
            let mode = radix_string((found.mode % 4096) as u64, 8);
            let mut text = "mode=".to_owned();
            text.append(zero_padded_string(mode.as_str(), 4).as_str());
            text.append(" uid=");
            text.append(decimal_string(found.uid as u64).as_str());
            text.append(" gid=");
            text.append(decimal_string(found.gid as u64).as_str());
            Ok(text)
        },
        Err(err) => Err(PlatformError::io("reading file metadata", err)),
    }
}

} // verus!
