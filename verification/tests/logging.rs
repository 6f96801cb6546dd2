use std::path::PathBuf;

use flamingo_agent::directive::sliceable;
use flamingo_agent::logging::{checked_filter, LoggingError};
use flamingo_agent::platform::{IoError, IoErrorKind};

#[test]
fn invalid_level_is_rejected_before_installing() {
    let err = checked_filter(&PathBuf::from("/tmp/x/agent.log"), "[invalid").unwrap_err();
    assert!(matches!(err, LoggingError::Filter(_)));
    assert_eq!(err.message(), "invalid log level \"[invalid\"");
}

/// A root directory has no file name, so there is nowhere to write.
#[test]
fn path_without_file_name_is_rejected() {
    let err = checked_filter(&PathBuf::from("/"), "info").unwrap_err();
    assert!(matches!(err, LoggingError::Path(_)), "{err:?}");
    assert_eq!(err.message(), "invalid agent log path \"/\"");
}

/// A path ending in `..` has a parent but no file name; it must be rejected as a path, not
/// attempted as a file.
#[test]
fn path_with_parent_but_no_file_name_is_rejected() {
    let err = checked_filter(&PathBuf::from("/tmp/x/.."), "info").unwrap_err();
    assert!(matches!(err, LoggingError::Path(_)), "{err:?}");
}

#[test]
fn level_names_are_accepted() {
    let log = PathBuf::from("/logs/agent.log");
    for (level, shown) in [
        ("error", "error"),
        ("warn", "warn"),
        ("info", "info"),
        ("debug", "debug"),
        ("trace", "trace"),
    ] {
        assert_eq!(checked_filter(&log, level).unwrap().to_string(), shown);
    }
    assert_eq!(
        checked_filter(&log, "info,flamingo_agent=debug")
            .unwrap()
            .to_string(),
        "flamingo_agent=debug,info"
    );
    assert!(checked_filter(&log, "x=nolevel").is_err());
}

#[test]
fn a_bad_level_is_reported_before_a_bad_path() {
    let err = checked_filter(&PathBuf::from("/"), "[invalid").unwrap_err();
    assert!(matches!(err, LoggingError::Filter(_)));
}

#[test]
fn a_cut_inside_a_character_is_found_beforehand() {
    for whole in [
        "info",
        " info",
        "",
        ",",
        "gr\u{fc}n=info, info",
        "\u{3000}info",
        " gr\u{fc}n=info",
        " \u{e9}",
        " \u{e9}]",
        " \u{e9}}{",
        " [a\u{e9}",
        " a[b]\u{e9}=",
        " a[b{c}\u{e9}]",
    ] {
        assert!(sliceable(whole), "{whole:?}");
    }
    for split in [
        " a\u{fc}=info",
        " a\u{fc}[x]",
        "info, a\u{fc}=info",
        " [\u{e9}]=info",
        " [a{\u{e9}}]",
        " [a\u{e9}{b}]",
        "\u{3000}[a]=info",
    ] {
        assert!(!sliceable(split), "{split:?}");
    }
}

#[test]
fn every_level_is_answered() {
    let log = PathBuf::from("/tmp/x/agent.log");
    for level in [" \u{e9}", " \u{e9}]", "\u{3000}info", " "] {
        let filter = checked_filter(&log, level);
        assert_eq!(filter.is_ok(), level != " ", "{level:?}");
    }
    for level in [" a\u{fc}=info", "info, a\u{fc}=info", " [\u{e9}]=info", " gr\u{fc}n=info"] {
        assert_eq!(
            checked_filter(&log, level).unwrap_err(),
            LoggingError::Filter(level.to_string())
        );
    }
}

#[test]
fn opening_failures_name_their_cause() {
    let err = LoggingError::Open(IoError {
        kind: IoErrorKind::Other,
        message: "denied".to_string(),
    });
    assert_eq!(err.message(), "opening the agent log: denied");
    assert_eq!(err.chain(), "opening the agent log: denied: denied");
    let err = LoggingError::AlreadyInitialised;
    assert_eq!(err.message(), "logging was already initialised");
    assert_eq!(err.chain(), err.message());
}
