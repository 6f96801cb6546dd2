use std::path::PathBuf;

use clap::{Arg, ArgAction};
use flamingo_agent::cli::{Cli, Command, Options, RuntimeOption, UsageError};

fn parse(args: &[&str]) -> Result<Cli, UsageError> {
    let text = |name: &'static str| Arg::new(name).long(name).action(ArgAction::Set);
    let number = |name: &'static str| text(name).value_parser(clap::builder::RangedU64ValueParser::<u64>::new());
    let flag = |name: &'static str| Arg::new(name).long(name).action(ArgAction::SetTrue);
    let matches = clap::Command::new("flamingo-agent")
        .arg(flag("install"))
        .arg(flag("uninstall"))
        .arg(number("period-secs"))
        .arg(number("child-timeout-secs"))
        .arg(text("child-path"))
        .arg(text("log-dir"))
        .arg(text("log-level"))
        .try_get_matches_from(std::iter::once("flamingo-agent").chain(args.iter().copied()))
        .unwrap();
    Cli::from_options(Options {
        install: matches.get_flag("install"),
        uninstall: matches.get_flag("uninstall"),
        period_secs: matches.get_one::<u64>("period-secs").copied(),
        child_timeout_secs: matches.get_one::<u64>("child-timeout-secs").copied(),
        child_path: matches.get_one::<String>("child-path").map(PathBuf::from),
        log_dir: matches.get_one::<String>("log-dir").map(PathBuf::from),
        log_level: matches.get_one::<String>("log-level").cloned(),
    })
}

#[test]
fn bare_invocation_runs_with_defaults() {
    let cli = parse(&[]).unwrap();
    assert_eq!(cli.command(), Command::Run);
    assert_eq!(cli.period_secs, 5);
    assert_eq!(cli.child_timeout_secs, 4);
    assert_eq!(cli.log_level, "info");
    assert!(cli.child_path.is_none());
    assert!(cli.log_dir.is_none());
}

#[test]
fn install_and_uninstall_flags() {
    assert_eq!(parse(&["--install"]).unwrap().command(), Command::Install);
    assert_eq!(
        parse(&["--uninstall"]).unwrap().command(),
        Command::Uninstall
    );
}

#[test]
fn install_and_uninstall_together_is_an_error() {
    assert!(parse(&["--install", "--uninstall"]).is_err());
}

#[test]
fn install_rejects_runtime_overrides() {
    assert!(parse(&["--install", "--period-secs", "7"]).is_err());
    assert!(parse(&["--uninstall", "--log-level", "debug"]).is_err());
}

#[test]
fn zero_period_is_rejected() {
    assert!(parse(&["--period-secs", "0"]).is_err());
}

#[test]
fn overrides_parse() {
    let cli = parse(&[
        "--period-secs",
        "7",
        "--child-timeout-secs",
        "3",
        "--child-path",
        "/opt/child",
        "--log-dir",
        "/tmp/logs",
        "--log-level",
        "debug",
    ])
    .unwrap();
    assert_eq!(cli.period_secs, 7);
    assert_eq!(cli.child_timeout_secs, 3);
    assert_eq!(
        cli.child_path.as_deref(),
        Some(std::path::Path::new("/opt/child"))
    );
    assert_eq!(
        cli.log_dir.as_deref(),
        Some(std::path::Path::new("/tmp/logs"))
    );
    assert_eq!(cli.log_level, "debug");
}

#[test]
fn conflicting_flags_are_a_usage_error() {
    let err = parse(&["--install", "--uninstall"]).unwrap_err();
    assert_eq!(err, UsageError::InstallAndUninstall);
    assert_eq!(
        err.message(),
        "the argument --install cannot be used with --uninstall"
    );
    assert_eq!(flamingo_agent::app::EXIT_USAGE, 2);
}

#[test]
fn install_with_overrides_is_a_usage_error() {
    let err = parse(&["--install", "--period-secs", "7"]).unwrap_err();
    assert_eq!(
        err,
        UsageError::NoRuntimeOverride(RuntimeOption::PeriodSecs)
    );
    assert_eq!(
        err.message(),
        "the argument --period-secs cannot be used with --install or --uninstall"
    );
}

#[test]
fn every_runtime_option_conflicts_with_both_service_commands() {
    let overrides = [
        (RuntimeOption::PeriodSecs, "7"),
        (RuntimeOption::ChildTimeoutSecs, "3"),
        (RuntimeOption::ChildPath, "/opt/child"),
        (RuntimeOption::LogDir, "/tmp/logs"),
        (RuntimeOption::LogLevel, "debug"),
    ];
    for command in ["--install", "--uninstall"] {
        for (option, value) in overrides {
            let err = parse(&[command, option.flag(), value]).unwrap_err();
            assert_eq!(err, UsageError::NoRuntimeOverride(option));
        }
    }
}

#[test]
fn zero_is_reported_before_a_conflict() {
    assert_eq!(
        parse(&["--install", "--period-secs", "0"]).unwrap_err(),
        UsageError::Zero(RuntimeOption::PeriodSecs)
    );
    let err = parse(&["--child-timeout-secs", "0"]).unwrap_err();
    assert_eq!(err, UsageError::Zero(RuntimeOption::ChildTimeoutSecs));
    assert_eq!(
        err.message(),
        "the value of --child-timeout-secs must be at least 1"
    );
}
