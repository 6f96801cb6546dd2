use std::path::{Path, PathBuf};

use flamingo_agent::platform::unix::{
    after_chown, after_create, after_inspect, after_set_mode, assert_trusted_existing,
    default_log_dir, describe_protection, is_privileged, relaunch_privileged, Existing, Ownership,
    SecureRun,
};
use flamingo_agent::platform::{
    acquire_instance_lock, lock_file, IoError, IoErrorKind, LockAttempt, LogObject, PlatformError,
};

fn failed(kind: IoErrorKind) -> IoError {
    IoError {
        kind,
        message: "failed".to_string(),
    }
}

/// What stands at one path.
#[derive(Clone, Debug, PartialEq)]
struct Node {
    is_symlink: bool,
    uid: u32,
    gid: u32,
    mode: u32,
    content: String,
}

fn own(mode: u32, content: &str) -> Node {
    Node {
        is_symlink: false,
        uid: 1000,
        gid: 1000,
        mode,
        content: content.to_string(),
    }
}

/// Secure `path` as the user `euid`, on a file system that holds only `node`.
fn secure(object: LogObject, euid: u32, node: &mut Option<Node>) -> Result<(), PlatformError> {
    let path = PathBuf::from("/logs/x");
    let mut run = SecureRun::Inspect;
    loop {
        run = match run {
            SecureRun::Inspect => {
                let found = match node {
                    Some(there) => Ok(Existing {
                        is_symlink: there.is_symlink,
                        uid: there.uid,
                    }),
                    None => Err(failed(IoErrorKind::NotFound)),
                };
                after_inspect(object, &path, euid, found)
            }
            SecureRun::Create { mode } => {
                node.get_or_insert(Node {
                    is_symlink: false,
                    uid: euid,
                    gid: 1000,
                    mode,
                    content: String::new(),
                });
                after_create(object, mode, Ok(()))
            }
            SecureRun::SetMode { mode } => {
                node.as_mut().unwrap().mode = mode;
                after_set_mode(object, euid, mode, Ok(()))
            }
            SecureRun::ChownRoot => {
                let there = node.as_mut().unwrap();
                there.uid = 0;
                there.gid = 0;
                after_chown(Ok(()))
            }
            SecureRun::Ended(result) => return result,
        };
    }
}

fn refusal(result: Result<(), PlatformError>) -> &'static str {
    match result {
        Err(PlatformError::Untrusted { reason, .. }) => reason,
        other => panic!("unexpected {other:?}"),
    }
}

#[test]
fn secure_dir_refuses_a_symbolic_link() {
    let planted = Node {
        is_symlink: true,
        ..own(0o777, "")
    };
    let mut node = Some(planted.clone());
    assert_eq!(
        refusal(secure(LogObject::Dir, 1000, &mut node)),
        "a symbolic link"
    );
    assert_eq!(node, Some(planted), "the link must be left untouched");
}

#[test]
fn secure_file_refuses_a_symbolic_link() {
    let planted = Node {
        is_symlink: true,
        ..own(0o644, "planted\n")
    };
    let mut node = Some(planted.clone());
    assert_eq!(
        refusal(secure(LogObject::File, 1000, &mut node)),
        "a symbolic link"
    );
    assert_eq!(node, Some(planted));
}

#[test]
fn root_takes_the_group_and_leaves_the_content() {
    for start in [None, Some(Node { uid: 0, ..own(0o640, "keep me\n") })] {
        let mut node = start.clone();
        secure(LogObject::File, 0, &mut node).unwrap();
        let there = node.unwrap();
        assert_eq!((there.uid, there.gid, there.mode), (0, 0, 0o600));
        assert_eq!(there.content, start.map_or(String::new(), |node| node.content));
    }
    let mut node = Some(own(0o640, "keep me\n"));
    secure(LogObject::File, 1000, &mut node).unwrap();
    assert_eq!(node, Some(own(0o600, "keep me\n")));
}

#[test]
fn foreign_owned_log_directory_is_refused() {
    let planted = Node {
        uid: 65534,
        ..own(0o755, "")
    };
    let mut node = Some(planted.clone());
    assert_eq!(
        refusal(secure(LogObject::Dir, 0, &mut node)),
        "owned by another user"
    );
    assert_eq!(node, Some(planted), "ownership must not be taken");
}

#[test]
fn secure_dir_creates_with_0700() {
    let mut node = None;
    secure(LogObject::Dir, 1000, &mut node).unwrap();
    assert_eq!(node.unwrap().mode, 0o700);
}

#[test]
fn secure_dir_tightens_existing_directory() {
    let mut node = Some(own(0o755, ""));
    secure(LogObject::Dir, 1000, &mut node).unwrap();
    assert_eq!(node.unwrap().mode, 0o700);
}

#[test]
fn secure_file_creates_with_0600() {
    let mut node = None;
    secure(LogObject::File, 1000, &mut node).unwrap();
    assert_eq!(node.unwrap().mode, 0o600);
}

#[test]
fn secure_file_tightens_existing_file_and_keeps_content() {
    let mut node = Some(own(0o644, "keep me\n"));
    secure(LogObject::File, 1000, &mut node).unwrap();
    let node = node.unwrap();
    assert_eq!(node.mode, 0o600);
    assert_eq!(node.content, "keep me\n");
}

#[test]
fn secure_paths_are_root_owned_0600() {
    for (object, mode) in [(LogObject::Dir, 0o700), (LogObject::File, 0o600)] {
        let mut node = None;
        secure(object, 0, &mut node).unwrap();
        let node = node.unwrap();
        assert_eq!((node.mode, node.uid), (mode, 0));
    }
}

#[test]
fn describe_protection_reports_mode_and_owner() {
    let description = describe_protection(Ok(Ownership {
        mode: 0o100600,
        uid: 1000,
        gid: 100,
    }))
    .unwrap();
    assert!(description.starts_with("mode=0600 uid="), "{description}");
    assert_eq!(description, "mode=0600 uid=1000 gid=100");
    let sticky = Ownership {
        mode: 0o041777,
        uid: 0,
        gid: 0,
    };
    assert_eq!(
        describe_protection(Ok(sticky)).unwrap(),
        "mode=1777 uid=0 gid=0"
    );
    let bare = Ownership {
        mode: 0o100007,
        uid: u32::MAX,
        gid: 0,
    };
    assert_eq!(
        describe_protection(Ok(bare)).unwrap(),
        "mode=0007 uid=4294967295 gid=0"
    );
    let err = describe_protection(Err(failed(IoErrorKind::Other))).unwrap_err();
    assert_eq!(err.message(), "reading file metadata: failed");
}

#[test]
fn relaunch_is_unsupported() {
    assert!(matches!(
        relaunch_privileged(&[]),
        Err(PlatformError::Unsupported(_))
    ));
    assert_eq!(
        relaunch_privileged(&[]).unwrap_err().message(),
        "self-elevation is not supported on this platform"
    );
}

#[test]
fn default_log_dir_is_under_var_log() {
    assert_eq!(default_log_dir(), Path::new("/var/log/flamingo-agent"));
}

#[test]
fn only_root_is_privileged() {
    assert!(is_privileged(0).unwrap());
    assert!(!is_privileged(1000).unwrap());
}

#[test]
fn an_inspection_error_other_than_not_found_surfaces() {
    let path = PathBuf::from("/logs");
    let err =
        assert_trusted_existing(&path, Err(failed(IoErrorKind::Other)), 1000).unwrap_err();
    assert_eq!(err.message(), "inspecting existing log location: failed");
    assert!(assert_trusted_existing(&path, Err(failed(IoErrorKind::NotFound)), 1000).is_ok());
}

#[test]
fn each_failed_step_says_what_was_attempted() {
    let text = |run: SecureRun| match run {
        SecureRun::Ended(Err(err)) => err.message(),
        other => panic!("unexpected {other:?}"),
    };
    let err = || Err(failed(IoErrorKind::Other));
    assert_eq!(
        text(after_create(LogObject::Dir, 0o700, err())),
        "creating log directory: failed"
    );
    assert_eq!(
        text(after_create(LogObject::File, 0o600, err())),
        "creating child log file: failed"
    );
    assert_eq!(
        text(after_set_mode(LogObject::Dir, 0, 0o700, err())),
        "setting log directory mode: failed"
    );
    assert_eq!(
        text(after_set_mode(LogObject::File, 0, 0o600, err())),
        "setting child log mode: failed"
    );
    assert_eq!(
        text(after_chown(err())),
        "changing owner to root: failed"
    );
}

#[test]
fn second_instance_on_the_same_directory_is_refused() {
    let lock = lock_file(&PathBuf::from("/var/log/flamingo-agent"));
    assert_eq!(lock, Path::new("/var/log/flamingo-agent/agent.lock"));
    assert!(acquire_instance_lock(&lock, LockAttempt::Acquired).is_ok());
    let err = acquire_instance_lock(&lock, LockAttempt::Held).unwrap_err();
    assert_eq!(
        err.message(),
        "another agent instance already holds the lock /var/log/flamingo-agent/agent.lock"
    );
    let err = acquire_instance_lock(&lock, LockAttempt::OpenFailed(failed(IoErrorKind::Other)));
    assert_eq!(
        err.unwrap_err().message(),
        "opening the instance lock: failed"
    );
    let err = acquire_instance_lock(&lock, LockAttempt::LockFailed(failed(IoErrorKind::Other)));
    assert_eq!(
        err.unwrap_err().message(),
        "taking the instance lock: failed"
    );
}

#[test]
fn platform_errors_explain_themselves() {
    assert_eq!(
        PlatformError::ElevationDeclined.message(),
        "elevation prompt was declined"
    );
    assert_eq!(
        PlatformError::ElevationBlockedByPolicy.message(),
        "elevation is blocked by policy for this account"
    );
    let io = PlatformError::io("doing it", failed(IoErrorKind::Other));
    assert_eq!(io.message(), "doing it: failed");
    assert_eq!(io.chain(), "doing it: failed: failed");
    assert_eq!(
        PlatformError::ElevationDeclined.chain(),
        "elevation prompt was declined"
    );
}
