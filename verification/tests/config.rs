use std::path::{Path, PathBuf};

use flamingo_agent::cli::{Cli, Options};
use flamingo_agent::config::{Config, ConfigError};
use flamingo_agent::span::Span;

fn cli(args: &[&str]) -> Cli {
    let mut given = Options {
        install: false,
        uninstall: false,
        period_secs: None,
        child_timeout_secs: None,
        child_path: None,
        log_dir: None,
        log_level: None,
    };
    for pair in args.chunks(2) {
        match pair[0] {
            "--period-secs" => given.period_secs = Some(pair[1].parse().unwrap()),
            "--child-timeout-secs" => given.child_timeout_secs = Some(pair[1].parse().unwrap()),
            "--child-path" => given.child_path = Some(PathBuf::from(pair[1])),
            "--log-dir" => given.log_dir = Some(PathBuf::from(pair[1])),
            other => panic!("unexpected option {other}"),
        }
    }
    Cli::from_options(given).unwrap()
}

#[test]
fn defaults_derive_from_exe_and_platform_dir() {
    let cfg = Config::resolve(
        &cli(&[]),
        &PathBuf::from("/opt/flamingo/flamingo-agent"),
        PathBuf::from("/var/log/flamingo-agent"),
        "logger-child",
    )
    .unwrap();
    assert_eq!(cfg.period, Span::from_secs(5));
    assert_eq!(cfg.child_timeout, Span::from_secs(4));
    assert_eq!(cfg.child_path, Path::new("/opt/flamingo/logger-child"));
    assert_eq!(cfg.log_dir, Path::new("/var/log/flamingo-agent"));
    assert_eq!(
        cfg.agent_log,
        Path::new("/var/log/flamingo-agent/agent.log")
    );
    assert_eq!(
        cfg.child_log,
        Path::new("/var/log/flamingo-agent/child.log")
    );
}

#[test]
fn overrides_win() {
    let cfg = Config::resolve(
        &cli(&[
            "--child-path",
            "/x/child",
            "--log-dir",
            "/y",
            "--period-secs",
            "9",
            "--child-timeout-secs",
            "2",
        ]),
        &PathBuf::from("/opt/flamingo/flamingo-agent"),
        PathBuf::from("/var/log/flamingo-agent"),
        "logger-child",
    )
    .unwrap();
    assert_eq!(cfg.child_path, Path::new("/x/child"));
    assert_eq!(cfg.child_log, Path::new("/y/child.log"));
    assert_eq!(cfg.period, Span::from_secs(9));
    assert_eq!(cfg.child_timeout, Span::from_secs(2));
}

#[test]
fn timeout_must_be_below_period() {
    let err = Config::resolve(
        &cli(&["--period-secs", "4", "--child-timeout-secs", "4"]),
        &PathBuf::from("/a/b"),
        PathBuf::from("/l"),
        "c",
    )
    .unwrap_err();
    assert!(matches!(
        err,
        ConfigError::TimeoutNotBelowPeriod {
            timeout: 4,
            period: 4
        }
    ));
}

#[test]
fn config_error_names_both_values() {
    let err = ConfigError::TimeoutNotBelowPeriod {
        timeout: 10,
        period: 9,
    };
    assert_eq!(
        err.message(),
        "child timeout (10s) must be shorter than the period (9s)"
    );
}

#[test]
fn an_executable_without_a_directory_leaves_the_bare_child_name() {
    let cfg = Config::resolve(
        &cli(&[]),
        &PathBuf::from("/"),
        PathBuf::from("/l"),
        "logger-child",
    )
    .unwrap();
    assert_eq!(cfg.child_path, Path::new("logger-child"));
    assert_eq!(cfg.log_level, "info");
}

#[test]
fn spans_keep_milliseconds() {
    let span = Span::from_millis(2_750);
    assert_eq!((span.secs, span.nanos), (2, 750_000_000));
    assert_eq!(Span::from_millis(1_000), Span::from_secs(1));
}

#[test]
fn each_field_depends_on_its_own_option() {
    let resolve = |cli: &Cli| {
        Config::resolve(
            cli,
            &PathBuf::from("/opt/flamingo/flamingo-agent"),
            PathBuf::from("/var/log/flamingo-agent"),
            "logger-child",
        )
        .unwrap()
    };
    let base = resolve(&cli(&[]));
    let same = |cfg: &Config, but: &str| {
        assert_eq!(cfg.period == base.period, but != "period");
        assert_eq!(cfg.child_timeout == base.child_timeout, but != "timeout");
        assert_eq!(cfg.child_path == base.child_path, but != "child");
        assert_eq!(cfg.log_dir == base.log_dir, but != "logs");
        assert_eq!(cfg.agent_log == base.agent_log, but != "logs");
        assert_eq!(cfg.child_log == base.child_log, but != "logs");
        assert_eq!(cfg.log_level == base.log_level, but != "level");
    };
    same(&resolve(&cli(&["--period-secs", "60"])), "period");
    same(&resolve(&cli(&["--child-timeout-secs", "1"])), "timeout");
    same(&resolve(&cli(&["--child-path", "/x/child"])), "child");
    same(&resolve(&cli(&["--log-dir", "/y"])), "logs");
    let mut other = cli(&[]);
    other.log_level = "trace".to_string();
    same(&resolve(&other), "level");
    let mut other = cli(&[]);
    other.install = true;
    same(&resolve(&other), "");
    let mut other = cli(&[]);
    other.uninstall = true;
    same(&resolve(&other), "");
}

#[test]
fn relative_overrides_are_taken_from_the_executable() {
    let resolve = |args: &[&str]| {
        Config::resolve(
            &cli(args),
            &PathBuf::from("/opt/flamingo/flamingo-agent"),
            PathBuf::from("/var/log/flamingo-agent"),
            "logger-child",
        )
        .unwrap()
    };
    let cfg = resolve(&["--log-dir", "logs", "--child-path", "bin/child"]);
    assert_eq!(cfg.log_dir, Path::new("/opt/flamingo/logs"));
    assert_eq!(cfg.agent_log, Path::new("/opt/flamingo/logs/agent.log"));
    assert_eq!(cfg.child_log, Path::new("/opt/flamingo/logs/child.log"));
    assert_eq!(cfg.child_path, Path::new("/opt/flamingo/bin/child"));
    let cfg = resolve(&["--log-dir", "./logs", "--child-path", "../child"]);
    assert_eq!(cfg.log_dir, Path::new("/opt/flamingo/logs"));
    assert_eq!(cfg.child_path, Path::new("/opt/flamingo/../child"));
    let cfg = resolve(&["--log-dir", "", "--child-path", "c:child"]);
    assert_eq!(cfg.log_dir, Path::new("/opt/flamingo"));
    assert_eq!(cfg.child_path, Path::new("/opt/flamingo/c:child"));
    let cfg = resolve(&["--log-dir", "c:/logs"]);
    assert_eq!(cfg.log_dir, Path::new("/opt/flamingo/c:/logs"));
    for args in [["--log-dir", "x"], ["--child-path", "x"], ["--log-dir", "/x"]] {
        let cfg = resolve(&args);
        for path in [&cfg.child_path, &cfg.log_dir, &cfg.agent_log, &cfg.child_log] {
            assert!(path.is_absolute(), "{}", path.display());
        }
    }
}

#[test]
fn directories_that_begin_with_two_slashes_hold_both_logs() {
    let cfg = Config::resolve(
        &cli(&["--log-dir", "//share/logs"]),
        &PathBuf::from("//opt/flamingo-agent"),
        PathBuf::from("/var/log/flamingo-agent"),
        "logger-child",
    )
    .unwrap();
    assert_eq!(cfg.agent_log, Path::new("//share/logs/agent.log"));
    assert_eq!(cfg.child_log, Path::new("//share/logs/child.log"));
    assert_eq!(cfg.child_path, Path::new("//opt/logger-child"));
}
