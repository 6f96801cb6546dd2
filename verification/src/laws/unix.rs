//! Laws of the Unix platform layer.

use vstd::prelude::*;

use std::path::PathBuf;

use crate::laws::text::{lemma_leading_zeros, lemma_value, number, value_of};
use crate::paths::{is_absolute, last_name, path_parts, path_text, PathPart};
use crate::platform::unix;
use crate::platform::unix::{Existing, Ownership, SecureRun};
use crate::platform::{
    acquire_instance_lock, IoError, IoErrorKind, LockAttempt, LogObject, PlatformError,
};
use crate::text::{decimal, radix_text, zero_padded};

verus! {

/// The logs are kept where a system's logs are.
pub proof fn logs_are_kept_with_the_system_logs(dir: PathBuf)
    requires
        call_ensures(unix::default_log_dir, (), dir),
    ensures
        path_text(dir) == "/var/log/flamingo-agent"@,
        is_absolute(dir),
        last_name(path_parts(dir)) == Some("flamingo-agent"@),
{
    let parts = path_parts(dir);
    assert(parts[0] is Root);
    assert(parts.last() == PathPart::Name("flamingo-agent"@));
}

/// Root is privileged, and nobody else.
pub proof fn only_root_is_privileged(euid: u32, privileged: Result<bool, PlatformError>)
    requires
        call_ensures(unix::is_privileged, (euid,), privileged),
    ensures
        privileged matches Ok(answer) && (answer <==> euid == 0),
{
}

/// No process is ever elevated, whatever its arguments: the caller is told that it cannot be.
pub proof fn there_is_no_self_elevation(args: &[String], code: Result<i32, PlatformError>)
    requires
        call_ensures(unix::relaunch_privileged, (args,), code),
    ensures
        code matches Err(PlatformError::Unsupported(what)) && what@ == "self-elevation"@,
{
}

/// A path is trusted in two cases: nothing is there, or what is there is no symbolic link and
/// belongs to the effective user. A path that is refused is named, a link is called a link
/// whoever owns it, and an inspection that failed for another reason is reported as it failed.
pub proof fn only_own_objects_are_trusted(
    path: PathBuf,
    found: Result<Existing, IoError>,
    euid: u32,
    trusted: Result<(), PlatformError>,
)
    requires
        call_ensures(unix::assert_trusted_existing, (&path, found, euid), trusted),
    ensures
        found matches Ok(there) ==> (trusted is Ok <==> !there.is_symlink && there.uid == euid),
        found matches Err(err) ==> (trusted is Ok <==> err.kind == IoErrorKind::NotFound),
        found matches Ok(there) && there.is_symlink ==> (trusted matches Err(
            PlatformError::Untrusted { path: refused, reason },
        ) && refused@ == path_text(path) && reason@ == "a symbolic link"@),
        found matches Ok(there) && !there.is_symlink && there.uid != euid ==> (trusted matches Err(
            PlatformError::Untrusted { path: refused, reason },
        ) && refused@ == path_text(path) && reason@ == "owned by another user"@),
        found matches Err(err) ==> err.kind != IoErrorKind::NotFound ==> (trusted matches Err(
            PlatformError::Io { context, source },
        ) && source == err && context@ == "inspecting existing log location"@),
{
}

/// A path that is trusted is created next, a directory for its owner alone and a file for its
/// owner to read and write; any other ends the run with the error that refuses it.
pub proof fn only_trusted_paths_are_created(
    object: LogObject,
    path: PathBuf,
    euid: u32,
    found: Result<Existing, IoError>,
    trusted: Result<(), PlatformError>,
    run: SecureRun,
)
    requires
        call_ensures(unix::assert_trusted_existing, (&path, found, euid), trusted),
        call_ensures(unix::after_inspect, (object, &path, euid, found), run),
    ensures
        trusted is Ok ==> run == (SecureRun::Create {
            mode: if object is Dir {
                0o700
            } else {
                0o600
            },
        }),
        trusted is Err ==> run matches SecureRun::Ended(Err(_)),
        found matches Ok(there) && there.is_symlink ==> (run matches SecureRun::Ended(
            Err(PlatformError::Untrusted { path: refused, reason }),
        ) && refused@ == path_text(path) && reason@ == "a symbolic link"@),
        found matches Ok(there) && !there.is_symlink && there.uid != euid ==> (
        run matches SecureRun::Ended(Err(PlatformError::Untrusted { path: refused, reason }))
            && refused@ == path_text(path) && reason@ == "owned by another user"@),
        found matches Err(err) ==> err.kind != IoErrorKind::NotFound ==> (
        run matches SecureRun::Ended(Err(PlatformError::Io { context, source })) && source == err
            && context@ == "inspecting existing log location"@),
{
}

/// An object that was created gets the mode that it was created with, whatever was there
/// before; one that was not ends the run with its error.
pub proof fn created_objects_get_their_mode(
    object: LogObject,
    mode: u32,
    created: Result<(), IoError>,
    run: SecureRun,
)
    requires
        call_ensures(unix::after_create, (object, mode, created), run),
    ensures
        created is Ok ==> run == (SecureRun::SetMode { mode }),
        created matches Err(err) ==> (run matches SecureRun::Ended(
            Err(PlatformError::Io { context, source }),
        ) && source == err && context@ == if object is Dir {
            "creating log directory"@
        } else {
            "creating child log file"@
        }),
{
}

/// Root goes on to take the object over, and any other user is done; a mode that could not be
/// set ends the run with its error.
pub proof fn only_root_hands_objects_to_root(
    object: LogObject,
    euid: u32,
    mode: u32,
    set: Result<(), IoError>,
    run: SecureRun,
)
    requires
        call_ensures(unix::after_set_mode, (object, euid, mode, set), run),
    ensures
        run is ChownRoot <==> set is Ok && euid == 0,
        run == SecureRun::Ended(Ok(())) <==> set is Ok && euid != 0,
        set matches Err(err) ==> (run matches SecureRun::Ended(
            Err(PlatformError::Io { context, source }),
        ) && source == err && context@ == if object is Dir {
            "setting log directory mode"@
        } else {
            "setting child log mode"@
        }),
{
}

/// Handing the object to root is the last step, and securing succeeds exactly when that did.
pub proof fn securing_ends_with_the_owner(
    chowned: Result<(), IoError>,
    run: SecureRun,
    path: PathBuf,
)
    requires
        call_ensures(unix::after_chown, (chowned,), run),
    ensures
        run matches SecureRun::Ended(result) && (result is Ok <==> chowned is Ok),
        chowned matches Err(err) ==> (run matches SecureRun::Ended(
            Err(PlatformError::Io { context, source }),
        ) && source == err && context@ == "changing owner to root"@),
{
    assert(unix::secure_step(
        LogObject::Dir,
        path,
        0,
        SecureRun::ChownRoot,
        unix::SecureEvent::Chowned(chowned),
        run,
    ));
}

/// `text` shows a mode of four octal digits, a user and a group.
pub open spec fn shows_ownership(
    text: Seq<char>,
    mode: Seq<char>,
    user: Seq<char>,
    group: Seq<char>,
) -> bool {
    text == "mode="@ + mode + " uid="@ + user + " gid="@ + group
}

/// The summary of a file's protection holds four octal digits that read back as its twelve
/// permission bits, without the file's type, and its user and group, which read back as they
/// are. A file that could not be read has no summary.
pub proof fn protections_read_back(
    found: Result<Ownership, IoError>,
    described: Result<String, PlatformError>,
)
    requires
        call_ensures(unix::describe_protection, (found,), described),
    ensures
        described is Ok <==> found is Ok,
        found matches Ok(file) ==> exists|mode: Seq<char>, user: Seq<char>, group: Seq<char>|
            #[trigger] shows_ownership(described->Ok_0@, mode, user, group) && mode.len() == 4
                && value_of(mode, 8) == file.mode % 0o10000 && number(user) == file.uid && number(
                group,
            ) == file.gid,
        found matches Err(err) ==> (described matches Err(PlatformError::Io { context, source })
            && source == err && context@ == "reading file metadata"@),
{
    if let Ok(file) = found {
        let bits = (file.mode % 4096) as nat;
        let digits = radix_text(bits, 8);
        let mode = zero_padded(digits, 4);
        lemma_value(bits, 8);
        reveal_with_fuel(radix_text, 5);
        assert(digits.len() <= 4);
        lemma_value(file.uid as nat, 10);
        lemma_value(file.gid as nat, 10);
        if digits.len() < 4 {
            lemma_leading_zeros((4 - digits.len()) as nat, digits, 8);
        }
        assert(shows_ownership(
            described->Ok_0@,
            mode,
            decimal(file.uid as nat),
            decimal(file.gid as nat),
        ));
    }
}

/// The lock is ours exactly when it was acquired. Where another process holds it, the refusal
/// names the lock's path; a failure is reported as it failed, with what was attempted.
pub proof fn only_an_acquired_lock_is_ours(
    lock: PathBuf,
    attempt: LockAttempt,
    acquired: Result<(), PlatformError>,
)
    requires
        call_ensures(acquire_instance_lock, (&lock, attempt), acquired),
    ensures
        acquired is Ok <==> attempt is Acquired,
        acquired matches Err(PlatformError::AlreadyRunning { .. }) <==> attempt is Held,
        acquired matches Err(PlatformError::AlreadyRunning { path }) ==> path@ == path_text(lock),
        attempt matches LockAttempt::OpenFailed(err) ==> (acquired matches Err(
            PlatformError::Io { context, source },
        ) && source == err && context@ == "opening the instance lock"@),
        attempt matches LockAttempt::LockFailed(err) ==> (acquired matches Err(
            PlatformError::Io { context, source },
        ) && source == err && context@ == "taking the instance lock"@),
{
}

} // verus!
