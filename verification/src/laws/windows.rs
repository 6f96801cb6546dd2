//! Laws of the Windows platform layer.

use vstd::prelude::*;

use std::path::PathBuf;

use crate::paths::{ends_in, is_absolute, path_joined, path_of, path_text};
use crate::platform::windows;
use crate::platform::windows::{
    Creation, DaclRead, Existing, ProtectionRead, Relaunch, SecureEvent, SecureRun, TokenRead,
};
use crate::platform::{IoError, LockAttempt, LogObject, PlatformError};

verus! {

/// The logs are kept in a directory of their own below the program data, which is on drive C
/// where it is not told. It is absolute where the program data is.
pub proof fn logs_are_kept_with_the_program_data(program_data: Option<PathBuf>, dir: PathBuf)
    requires
        call_ensures(windows::default_log_dir, (program_data,), dir),
    ensures
        ends_in(path_text(dir), "FlamingoAgent"@),
        program_data matches Some(base) ==> dir == path_joined(base, path_of("FlamingoAgent"@)),
        program_data is None ==> dir == path_joined(
            path_of("C:\\ProgramData"@),
            path_of("FlamingoAgent"@),
        ),
        program_data matches Some(base) ==> is_absolute(base) ==> is_absolute(dir),
{
}

/// The code points that a row of UTF-16 code units stands for.
pub open spec fn code_points(units: Seq<u16>) -> Seq<int>
    decreases units.len(),
{
    if units.len() == 0 {
        Seq::empty()
    } else if 0xdc00 <= units.last() < 0xe000 && units.len() >= 2 {
        let high = units[units.len() - 2];
        code_points(units.drop_last().drop_last()).push(
            0x1_0000 + (high - 0xd800) * 0x400 + (units.last() - 0xdc00),
        )
    } else {
        code_points(units.drop_last()).push(units.last() as int)
    }
}

proof fn lemma_scalar(c: char)
    ensures
        c as u32 <= 0x10_ffff,
        !(0xd800 <= c as u32 <= 0xdfff),
        c as u32 == c as int,
        c as u32 == 0 ==> c == '\0',
{
}

proof fn lemma_code_points(text: Seq<char>)
    ensures
        code_points(windows::utf16(text)) == text.map_values(|c: char| c as int),
        (forall|i: int| 0 <= i < text.len() ==> text[i] != '\0') ==> forall|i: int|
            0 <= i < windows::utf16(text).len() ==> windows::utf16(text)[i] != 0,
    decreases text.len(),
{
    let units = windows::utf16(text);
    if text.len() == 0 {
        assert(code_points(units) =~= text.map_values(|c: char| c as int));
    } else {
        let front = windows::utf16(text.drop_last());
        lemma_code_points(text.drop_last());
        let c = text.last();
        let n = c as u32;
        lemma_scalar(c);
        if n < 0x1_0000 {
            assert(units.drop_last() =~= front);
        } else {
            assert(units.len() >= 2);
            assert(units.drop_last().drop_last() =~= front);
            assert((n - 0x1_0000) / 0x400 < 0x400);
        }
        let point = |c: char| c as int;
        assert(code_points(units) == code_points(front).push(n as int));
        assert(text.map_values(point) =~= text.drop_last().map_values(point).push(point(c)));
        if forall|i: int| 0 <= i < text.len() ==> text[i] != '\0' {
            assert forall|i: int| 0 <= i < text.drop_last().len() implies text.drop_last()[i]
                != '\0' by {
                assert(text.drop_last()[i] == text[i]);
            }
            assert(text[text.len() - 1] != '\0');
            assert(n != 0);
        }
    }
}

/// A text in UTF-16 reads back as itself in front of the NUL that ends it, and where the text
/// holds no NUL nothing else in it does.
pub proof fn wide_texts_read_back(text: &str, units: Vec<u16>)
    requires
        call_ensures(windows::wide, (text,), units),
    ensures
        units@.len() > 0,
        units@.last() == 0,
        code_points(units@.drop_last()) == text@.map_values(|c: char| c as int),
        (forall|i: int| 0 <= i < text@.len() ==> text@[i] != '\0') ==> forall|i: int|
            0 <= i < units@.len() - 1 ==> units@[i] != 0,
{
    lemma_code_points(text@);
    assert(units@.drop_last() =~= windows::utf16(text@));
}

/// Attributes that cannot be read mean that nothing is there in two cases: the file, or a
/// directory on the way to it, is missing. Any other error is reported as it is. The owner is
/// left to be read exactly where attributes were read without the bit of a reparse point.
pub proof fn only_missing_paths_are_absent(
    attributes: Result<u32, u32>,
    existing: Option<Existing>,
)
    requires
        call_ensures(windows::read_attributes, (attributes,), existing),
    ensures
        existing == Some(Existing::Absent) <==> attributes == Err::<u32, u32>(2) || attributes
            == Err::<u32, u32>(3),
        attributes matches Err(code) && code != 2 && code != 3 ==> (
        existing matches Some(Existing::Unreadable { call, code: reported }) && reported
            == attributes->Err_0 && call@ == "GetFileAttributesW"@),
        existing is None <==> (attributes matches Ok(bits) && bits & 0x400 == 0),
        attributes matches Ok(bits) && bits & 0x400 != 0 ==> (existing matches Some(
            Existing::Object { reparse_point, .. },
        ) && reparse_point),
{
    let told = windows::existing_at(attributes, Ok(true));
    let other = windows::existing_at(attributes, Ok(false));
}

/// A real object is no reparse point, and its owner is trusted exactly when it was found to
/// be; where that cannot be told, the error is reported.
pub proof fn owners_are_passed_on(owner: Result<bool, u32>, existing: Existing)
    requires
        call_ensures(windows::read_owner, (owner,), existing),
    ensures
        owner matches Ok(trusted) ==> existing == (Existing::Object {
            reparse_point: false,
            trusted_owner: trusted,
        }),
        owner matches Err(code) ==> (existing matches Existing::Unreadable {
            call,
            code: reported,
        } && reported == code && call@ == "GetNamedSecurityInfoW"@),
{
    assert(0u32 & 0x400u32 == 0) by (bit_vector);
    let told = windows::existing_at(Ok(0), owner);
}

/// Another process holds the lock exactly when its file is shared with nobody; any other
/// failure is passed on.
pub proof fn only_a_sharing_violation_means_held(code: u32, err: IoError, attempt: LockAttempt)
    requires
        call_ensures(windows::lock_open_failed, (code, err), attempt),
    ensures
        attempt is Held <==> code == 32,
        code != 32 ==> attempt == LockAttempt::OpenFailed(err),
{
}

/// A path is trusted in two cases: nothing is there, or a real object of a trusted owner. A
/// path that is refused is named, and one that cannot be read is reported as it failed.
pub proof fn only_trusted_owners_are_trusted(
    path: PathBuf,
    found: Existing,
    trusted: Result<(), PlatformError>,
)
    requires
        call_ensures(windows::assert_trusted_existing, (&path, found), trusted),
    ensures
        trusted is Ok <==> found is Absent || found == (Existing::Object {
            reparse_point: false,
            trusted_owner: true,
        }),
        found matches Existing::Object { reparse_point, .. } && reparse_point ==> (
        trusted matches Err(PlatformError::Untrusted { path: refused, reason }) && refused@
            == path_text(path) && reason@ == "a reparse point"@),
        found == (Existing::Object { reparse_point: false, trusted_owner: false }) ==> (
        trusted matches Err(PlatformError::Untrusted { path: refused, reason }) && refused@
            == path_text(path) && reason@ == "owned by neither Administrators nor SYSTEM"@),
        found matches Existing::Unreadable { call, code } ==> (trusted matches Err(
            PlatformError::Os { call: named, code: reported },
        ) && named@ == call@ && reported == code),
{
}

/// The protection of an object: full access for the administrators and the system, protected
/// from inheritance, with entries that a directory hands on to what is in it.
pub proof fn only_administrators_and_the_system_have_access(object: LogObject, text: &'static str)
    requires
        call_ensures(windows::sddl, (object,), text),
    ensures
        object is Dir ==> text@ == "D:P(A;OICI;FA;;;BA)(A;OICI;FA;;;SY)"@,
        object is File ==> text@ == "D:P(A;;FA;;;BA)(A;;FA;;;SY)"@,
{
}

/// A path that is trusted gets a descriptor next; any other ends the run with the error that
/// refuses it.
pub proof fn only_trusted_paths_get_a_descriptor(path: PathBuf, found: Existing, run: SecureRun)
    requires
        call_ensures(windows::after_inspect, (&path, found), run),
    ensures
        run is MakeDescriptor <==> found is Absent || found == (Existing::Object {
            reparse_point: false,
            trusted_owner: true,
        }),
        found matches Existing::Object { reparse_point, .. } && reparse_point ==> (
        run matches SecureRun::Ended(Err(PlatformError::Untrusted { path: refused, reason }))
            && refused@ == path_text(path) && reason@ == "a reparse point"@),
        found == (Existing::Object { reparse_point: false, trusted_owner: false }) ==> (
        run matches SecureRun::Ended(Err(PlatformError::Untrusted { path: refused, reason }))
            && refused@ == path_text(path) && reason@
            == "owned by neither Administrators nor SYSTEM"@),
        found matches Existing::Unreadable { call, code } ==> (run matches SecureRun::Ended(
            Err(PlatformError::Os { call: named, code: reported }),
        ) && named@ == call@ && reported == code),
{
}

/// An object is created with the descriptor, and not without one.
pub proof fn objects_are_created_with_a_descriptor(
    made: Result<(), u32>,
    run: SecureRun,
    path: PathBuf,
)
    requires
        call_ensures(windows::after_descriptor, (made,), run),
    ensures
        made is Ok ==> run == (SecureRun::Create { parents_made: false }),
        made matches Err(code) ==> (run matches SecureRun::Ended(
            Err(PlatformError::Os { call, code: reported }),
        ) && reported == code && call@ == "ConvertStringSecurityDescriptorToSecurityDescriptorW"@),
{
    assert(windows::secure_step(
        LogObject::Dir,
        path,
        SecureRun::MakeDescriptor,
        SecureEvent::DescriptorMade(made),
        run,
    ));
}

/// An object that was created goes on, and so does a directory that existed and a file that is
/// there although it could not be opened. A directory whose parents are missing has them made,
/// once. Every other failure ends the run with its code.
pub proof fn objects_in_place_go_on(
    object: LogObject,
    parents_made: bool,
    creation: Creation,
    run: SecureRun,
)
    requires
        call_ensures(windows::after_create, (object, parents_made, creation), run),
    ensures
        run is ReadDacl <==> (creation is Done || (creation matches Creation::Failed {
            code,
            exists,
        } && (object is Dir && code == 183 || object is File && exists))),
        run is CreateParents <==> object is Dir && !parents_made && (
        creation matches Creation::Failed { code, .. } && code == 3),
        run matches SecureRun::Ended(result) ==> (creation matches Creation::Failed { code, .. }
            && result matches Err(PlatformError::Os { call, code: reported }) && reported == code
            && call@ == if object is Dir {
            "CreateDirectoryW"@
        } else {
            "CreateFileW"@
        }),
        run is ReadDacl || run is CreateParents || run is Ended,
{
}

/// Once the missing parents are there the object is tried again, and they are not made twice.
pub proof fn parents_are_made_once(created: Result<(), IoError>, run: SecureRun, path: PathBuf)
    requires
        call_ensures(windows::after_parents, (created,), run),
    ensures
        created is Ok ==> run == (SecureRun::Create { parents_made: true }),
        created matches Err(err) ==> (run matches SecureRun::Ended(
            Err(PlatformError::Io { context, source }),
        ) && source == err && context@ == "creating parent directories"@),
{
    assert(windows::secure_step(
        LogObject::Dir,
        path,
        SecureRun::CreateParents,
        SecureEvent::ParentsCreated(created),
        run,
    ));
}

/// A DACL that was read is applied; without one the run ends with the error.
pub proof fn only_a_dacl_is_applied(read: DaclRead, run: SecureRun, path: PathBuf)
    requires
        call_ensures(windows::after_dacl, (read,), run),
    ensures
        run is ApplyDacl <==> read is Found,
        read is Missing ==> (run matches SecureRun::Ended(Err(PlatformError::Os { call, code }))
            && code == 0 && call@ == "GetSecurityDescriptorDacl (descriptor has no DACL)"@),
        read matches DaclRead::Failed(number) ==> (run matches SecureRun::Ended(
            Err(PlatformError::Os { call, code }),
        ) && code == number && call@ == "GetSecurityDescriptorDacl"@),
{
    assert(windows::secure_step(
        LogObject::Dir,
        path,
        SecureRun::ReadDacl,
        SecureEvent::DaclRead(read),
        run,
    ));
}

/// Applying the DACL is the last step, and securing succeeds exactly when it reports no error.
pub proof fn securing_ends_with_the_dacl(number: u32, run: SecureRun)
    requires
        call_ensures(windows::after_apply, (number,), run),
    ensures
        run == SecureRun::Ended(Ok(())) <==> number == 0,
        number != 0 ==> (run matches SecureRun::Ended(Err(PlatformError::Os { call, code }))
            && code == number && call@ == "SetNamedSecurityInfoW"@),
{
}

proof fn lemma_trailing_nul(text: Seq<char>) -> (k: int)
    ensures
        0 <= k <= text.len(),
        windows::without_trailing_nul(text) == text.take(k),
        forall|i: int| k <= i < text.len() ==> #[trigger] text[i] == '\0',
        k > 0 ==> text[k - 1] != '\0',
    decreases text.len(),
{
    if text.len() > 0 && text.last() == '\0' {
        let k = lemma_trailing_nul(text.drop_last());
        assert(text.take(k) =~= text.drop_last().take(k));
        assert forall|i: int| k <= i < text.len() implies #[trigger] text[i] == '\0' by {
            if i < text.len() - 1 {
                assert(text[i] == text.drop_last()[i]);
            }
        }
        k
    } else {
        assert(text.take(text.len() as int) =~= text);
        text.len() as int
    }
}

/// `text` is what stands in `buffer` in front of nothing but NUL characters.
pub open spec fn is_held_by(text: Seq<char>, buffer: Seq<char>) -> bool {
    &&& text.is_prefix_of(buffer)
    &&& forall|i: int| text.len() <= i < buffer.len() ==> #[trigger] buffer[i] == '\0'
    &&& text.len() > 0 ==> text.last() != '\0'
}

/// A protection is described by what the system wrote, without the NUL characters behind it;
/// what could not be read is reported as it failed.
pub proof fn protections_are_passed_on(
    read: ProtectionRead,
    described: Result<String, PlatformError>,
)
    requires
        call_ensures(windows::describe_protection, (read,), described),
    ensures
        described is Ok <==> read is Text,
        read matches ProtectionRead::Text(buffer) ==> (described matches Ok(text) && is_held_by(
            text@,
            buffer@,
        )),
        read matches ProtectionRead::NoDescriptor(number) ==> (described matches Err(
            PlatformError::Os { call, code },
        ) && code == number && call@ == "GetNamedSecurityInfoW"@),
        read matches ProtectionRead::NoText(number) ==> (described matches Err(
            PlatformError::Os { call, code },
        ) && code == number && call@ == "ConvertSecurityDescriptorToStringSecurityDescriptorW"@),
{
    if let ProtectionRead::Text(buffer) = read {
        let k = lemma_trailing_nul(buffer@);
    }
}

/// A token is privileged exactly when it was read and its elevation is not zero.
pub proof fn only_elevated_tokens_are_privileged(
    read: TokenRead,
    privileged: Result<bool, PlatformError>,
)
    requires
        call_ensures(windows::is_privileged, (read,), privileged),
    ensures
        privileged == Ok::<bool, PlatformError>(true) <==> (read matches TokenRead::Elevation(
            n,
        ) && n != 0),
        privileged == Ok::<bool, PlatformError>(false) <==> read == TokenRead::Elevation(0),
        read matches TokenRead::NoToken(number) ==> (privileged matches Err(
            PlatformError::Os { call, code },
        ) && code == number && call@ == "OpenProcessToken"@),
        read matches TokenRead::NoInformation(number) ==> (privileged matches Err(
            PlatformError::Os { call, code },
        ) && code == number && call@ == "GetTokenInformation"@),
{
}

/// The elevated instance's exit code comes back as the same 32 bits. A prompt that was
/// cancelled and one that policy did not offer are told apart from every other refusal, which
/// is reported with its code.
pub proof fn exit_codes_keep_their_bits(relaunch: Relaunch, code: Result<i32, PlatformError>)
    requires
        call_ensures(windows::relaunch_privileged, (relaunch,), code),
    ensures
        code is Ok <==> relaunch is Exited,
        relaunch matches Relaunch::Exited(number) ==> (code matches Ok(c) && (c - number)
            % 0x1_0000_0000 == 0),
        code matches Err(PlatformError::ElevationDeclined) <==> relaunch == Relaunch::Refused(1223),
        code matches Err(PlatformError::ElevationBlockedByPolicy) <==> relaunch
            == Relaunch::Refused(1260),
        relaunch matches Relaunch::Refused(number) ==> number != 1223 ==> number != 1260 ==> (
        code matches Err(PlatformError::Os { call, code: reported }) && reported == number && call@
            == "ShellExecuteExW"@),
        relaunch is NoProcess ==> (code matches Err(PlatformError::Os { call, code: reported })
            && reported == 0 && call@ == "ShellExecuteExW (no process handle returned)"@),
        relaunch matches Relaunch::NoExecutable(err) ==> (code matches Err(
            PlatformError::Io { context, source },
        ) && source == err && context@ == "locating own executable"@),
{
}

} // verus!
