use std::path::PathBuf;

use flamingo_agent::platform::windows::{
    after_apply, after_create, after_dacl, after_descriptor, after_inspect, after_parents,
    default_log_dir, describe_protection, is_privileged, lock_open_failed, read_attributes,
    read_owner, relaunch_privileged, sddl, wide, Creation, DaclRead, Existing, ProtectionRead, Relaunch, SecureRun, TokenRead, DIR_SDDL, FILE_SDDL,
};
use flamingo_agent::platform::{IoError, IoErrorKind, LockAttempt, LogObject, PlatformError};

/// What stands at one path.
#[derive(Clone, Debug, PartialEq)]
struct Node {
    reparse_point: bool,
    trusted_owner: bool,
    sddl: String,
    content: String,
    denies_write: bool,
}

fn node(sddl: &str, content: &str) -> Node {
    Node {
        reparse_point: false,
        trusted_owner: true,
        sddl: sddl.to_string(),
        content: content.to_string(),
        denies_write: false,
    }
}

/// Secure a path, on a file system that holds only `there`, with or without its parents.
fn secure(
    object: LogObject,
    mut parents: bool,
    there: &mut Option<Node>,
) -> Result<(), PlatformError> {
    let path = PathBuf::from("logs");
    let mut run = SecureRun::Inspect;
    loop {
        run = match run {
            SecureRun::Inspect => {
                let found = match there {
                    Some(found) => Existing::Object {
                        reparse_point: found.reparse_point,
                        trusted_owner: found.trusted_owner,
                    },
                    None => Existing::Absent,
                };
                after_inspect(&path, found)
            }
            SecureRun::MakeDescriptor => after_descriptor(Ok(())),
            SecureRun::Create { parents_made } => {
                let creation = match (object, &there) {
                    (LogObject::Dir, Some(_)) => Creation::Failed {
                        code: 183,
                        exists: true,
                    },
                    (LogObject::File, Some(found)) if found.denies_write => Creation::Failed {
                        code: 5,
                        exists: true,
                    },
                    (LogObject::File, Some(_)) => Creation::Done,
                    (_, None) if !parents => Creation::Failed {
                        code: 3,
                        exists: false,
                    },
                    (_, None) => {
                        *there = Some(node(sddl(object), ""));
                        Creation::Done
                    }
                };
                after_create(object, parents_made, creation)
            }
            SecureRun::CreateParents => {
                parents = true;
                after_parents(Ok(()))
            }
            SecureRun::ReadDacl => after_dacl(DaclRead::Found),
            SecureRun::ApplyDacl => {
                there.as_mut().unwrap().sddl = sddl(object).to_string();
                after_apply(0)
            }
            SecureRun::Ended(result) => return result,
        };
    }
}

fn assert_file_policy(sddl: &str) {
    assert!(sddl.starts_with("D:P"), "not protected: {sddl}");
    assert!(
        sddl.ends_with("(A;;FA;;;BA)(A;;FA;;;SY)"),
        "unexpected ACEs: {sddl}"
    );
}

#[test]
fn secure_file_creates_born_locked() {
    let mut there = None;
    secure(LogObject::File, true, &mut there).unwrap();
    assert_file_policy(&there.unwrap().sddl);
}

#[test]
fn secure_file_replaces_inherited_acl_and_keeps_content() {
    let before = "D:AI(A;ID;FA;;;BU)";
    let mut there = Some(node(before, "keep me\r\n"));
    assert!(!before.starts_with("D:P"));
    secure(LogObject::File, true, &mut there).unwrap();
    let there = there.unwrap();
    assert_file_policy(&there.sddl);
    assert_eq!(there.content, "keep me\r\n");
}

#[test]
fn secure_dir_applies_inheritable_protected_dacl() {
    let mut there = None;
    secure(LogObject::Dir, true, &mut there).unwrap();
    secure(LogObject::Dir, true, &mut there).unwrap(); // idempotent
    let sddl = there.unwrap().sddl;
    assert!(sddl.starts_with("D:P"), "{sddl}");
    assert!(sddl.ends_with("(A;OICI;FA;;;BA)(A;OICI;FA;;;SY)"), "{sddl}");
}

#[test]
fn secure_file_recovers_a_file_that_denies_write() {
    let mut there = Some(Node {
        denies_write: true,
        ..node("D:(D;;GW;;;WD)", "kept")
    });
    secure(LogObject::File, true, &mut there).unwrap();
    assert_file_policy(&there.unwrap().sddl);
}

#[test]
fn secure_dir_creates_missing_parents() {
    let mut there = None;
    secure(LogObject::Dir, false, &mut there).unwrap();
    assert_eq!(there.unwrap().sddl, DIR_SDDL);
}

#[test]
fn secure_dir_refuses_a_junction() {
    let planted = Node {
        reparse_point: true,
        ..node("D:", "")
    };
    let mut there = Some(planted.clone());
    match secure(LogObject::Dir, true, &mut there) {
        Err(PlatformError::Untrusted { path, reason }) => {
            assert_eq!((path.as_str(), reason), ("logs", "a reparse point"));
        }
        other => panic!("unexpected {other:?}"),
    }
    assert_eq!(there, Some(planted));
}

#[test]
fn a_foreign_owner_is_refused() {
    let planted = Node {
        trusted_owner: false,
        ..node("D:", "")
    };
    let mut there = Some(planted.clone());
    match secure(LogObject::File, true, &mut there) {
        Err(PlatformError::Untrusted { reason, .. }) => {
            assert_eq!(reason, "owned by neither Administrators nor SYSTEM");
        }
        other => panic!("unexpected {other:?}"),
    }
    assert_eq!(there, Some(planted));
}

#[test]
fn each_failed_call_is_named() {
    let path = PathBuf::from("logs");
    let text = |run: SecureRun| match run {
        SecureRun::Ended(Err(err)) => err.message(),
        other => panic!("unexpected {other:?}"),
    };
    let unreadable = Existing::Unreadable {
        call: "GetFileAttributesW",
        code: 5,
    };
    assert_eq!(
        text(after_inspect(&path, unreadable)),
        "GetFileAttributesW failed with OS error 5"
    );
    assert_eq!(
        text(after_descriptor(Err(1336))),
        "ConvertStringSecurityDescriptorToSecurityDescriptorW failed with OS error 1336"
    );
    let denied = Creation::Failed {
        code: 5,
        exists: false,
    };
    assert_eq!(
        text(after_create(LogObject::Dir, false, denied)),
        "CreateDirectoryW failed with OS error 5"
    );
    assert_eq!(
        text(after_create(LogObject::File, false, denied)),
        "CreateFileW failed with OS error 5"
    );
    let no_parents = Creation::Failed {
        code: 3,
        exists: false,
    };
    assert_eq!(
        text(after_create(LogObject::Dir, true, no_parents)),
        "CreateDirectoryW failed with OS error 3"
    );
    let io = IoError {
        kind: IoErrorKind::Other,
        message: "denied".to_string(),
    };
    assert_eq!(
        text(after_parents(Err(io))),
        "creating parent directories: denied"
    );
    assert_eq!(
        text(after_dacl(DaclRead::Missing)),
        "GetSecurityDescriptorDacl (descriptor has no DACL) failed with OS error 0"
    );
    assert_eq!(
        text(after_dacl(DaclRead::Failed(87))),
        "GetSecurityDescriptorDacl failed with OS error 87"
    );
    assert_eq!(
        text(after_apply(5)),
        "SetNamedSecurityInfoW failed with OS error 5"
    );
}

#[test]
fn default_log_dir_is_under_program_data() {
    let dir = default_log_dir(None);
    assert!(dir.ends_with("FlamingoAgent"), "{}", dir.display());
    let dir = default_log_dir(Some(PathBuf::from("/data")));
    assert_eq!(dir, PathBuf::from("/data/FlamingoAgent"));
}

#[test]
fn is_privileged_answers() {
    assert!(is_privileged(TokenRead::Elevation(1)).unwrap());
    assert!(!is_privileged(TokenRead::Elevation(0)).unwrap());
    assert_eq!(
        is_privileged(TokenRead::NoToken(5)).unwrap_err().message(),
        "OpenProcessToken failed with OS error 5"
    );
    assert_eq!(
        is_privileged(TokenRead::NoInformation(24))
            .unwrap_err()
            .message(),
        "GetTokenInformation failed with OS error 24"
    );
}

#[test]
fn a_relaunch_gives_the_exit_code_or_the_reason() {
    assert_eq!(relaunch_privileged(Relaunch::Exited(3)), Ok(3));
    assert_eq!(relaunch_privileged(Relaunch::Exited(u32::MAX)), Ok(-1));
    assert_eq!(
        relaunch_privileged(Relaunch::Exited(0x8000_0000)),
        Ok(i32::MIN)
    );
    assert_eq!(
        relaunch_privileged(Relaunch::Refused(1223)),
        Err(PlatformError::ElevationDeclined)
    );
    assert_eq!(
        relaunch_privileged(Relaunch::Refused(1260)),
        Err(PlatformError::ElevationBlockedByPolicy)
    );
    assert_eq!(
        relaunch_privileged(Relaunch::Refused(5)),
        Err(PlatformError::Os {
            call: "ShellExecuteExW",
            code: 5
        })
    );
    assert_eq!(
        relaunch_privileged(Relaunch::NoProcess),
        Err(PlatformError::Os {
            call: "ShellExecuteExW (no process handle returned)",
            code: 0
        })
    );
    let gone = IoError {
        kind: IoErrorKind::NotFound,
        message: "gone".to_string(),
    };
    assert_eq!(
        relaunch_privileged(Relaunch::NoExecutable(gone))
            .unwrap_err()
            .message(),
        "locating own executable: gone"
    );
}

#[test]
fn the_effective_dacl_is_reported_without_padding() {
    let text = format!("{FILE_SDDL}\0\0");
    assert_eq!(
        describe_protection(ProtectionRead::Text(text)).unwrap(),
        FILE_SDDL
    );
    assert_eq!(
        describe_protection(ProtectionRead::Text("\0a\0b".to_string())).unwrap(),
        "\0a\0b"
    );
    assert_eq!(
        describe_protection(ProtectionRead::NoDescriptor(2))
            .unwrap_err()
            .message(),
        "GetNamedSecurityInfoW failed with OS error 2"
    );
    assert_eq!(
        describe_protection(ProtectionRead::NoText(87))
            .unwrap_err()
            .message(),
        "ConvertSecurityDescriptorToStringSecurityDescriptorW failed with OS error 87"
    );
}

#[test]
fn wide_text_is_terminated_utf16() {
    for text in ["", "runas", "gr\u{fc}n", "\u{ffff}\u{10000}\u{10ffff}\u{1f9a9}"] {
        let expected: Vec<u16> = text.encode_utf16().chain(std::iter::once(0)).collect();
        assert_eq!(wide(text), expected);
    }
}

#[test]
fn attributes_tell_what_stands_at_a_path() {
    assert_eq!(read_attributes(Err(2)), Some(Existing::Absent));
    assert_eq!(read_attributes(Err(3)), Some(Existing::Absent));
    assert_eq!(
        read_attributes(Err(5)),
        Some(Existing::Unreadable {
            call: "GetFileAttributesW",
            code: 5
        })
    );
    assert_eq!(
        read_attributes(Ok(0x410)),
        Some(Existing::Object {
            reparse_point: true,
            trusted_owner: false
        })
    );
    assert_eq!(read_attributes(Ok(0x10)), None);
    assert_eq!(
        read_owner(Ok(true)),
        Existing::Object {
            reparse_point: false,
            trusted_owner: true
        }
    );
    assert_eq!(
        read_owner(Err(5)),
        Existing::Unreadable {
            call: "GetNamedSecurityInfoW",
            code: 5
        }
    );
}

#[test]
fn a_shared_lock_file_is_held_by_another_instance() {
    let err = || IoError {
        kind: IoErrorKind::Other,
        message: "denied".to_string(),
    };
    assert!(matches!(lock_open_failed(32, err()), LockAttempt::Held));
    assert!(matches!(
        lock_open_failed(5, err()),
        LockAttempt::OpenFailed(_)
    ));
}
