//! Laws of the command line and of the configuration that it leads to.

use vstd::prelude::*;

use std::path::PathBuf;

use crate::cli::{Cli, Command, Options, RuntimeOption, UsageError};
use crate::config::{Config, ConfigError};
use crate::laws::text::{decimals_read_back, number};
use crate::paths::{
    ends_in, has_prefix, is_absolute, is_plain_name, parent_of, path_joined, path_of, path_parts,
    path_text,
};
use crate::text::decimal_string;

verus! {

/// A command line is accepted exactly when both durations are at least one second where they
/// are given, not both service commands are, and with either nothing else is.
pub proof fn only_sound_options_are_accepted(given: Options, cli: Result<Cli, UsageError>)
    requires
        call_ensures(Cli::from_options, (given,), cli),
    ensures
        cli is Ok <==> {
            &&& given.period_secs matches Some(secs) ==> secs >= 1
            &&& given.child_timeout_secs matches Some(secs) ==> secs >= 1
            &&& !given.install || !given.uninstall
            &&& given.install || given.uninstall ==> given.period_secs is None
                && given.child_timeout_secs is None && given.child_path is None
                && given.log_dir is None && given.log_level is None
        },
{
}

/// What is given is taken as it is, and what is not given has its default: a cycle every five
/// seconds, four for the child, and the level of information.
pub proof fn given_options_are_taken(given: Options, cli: Result<Cli, UsageError>)
    requires
        call_ensures(Cli::from_options, (given,), cli),
    ensures
        cli matches Ok(c) ==> {
            &&& c.install == given.install
            &&& c.uninstall == given.uninstall
            &&& given.period_secs matches Some(secs) ==> c.period_secs == secs
            &&& given.period_secs is None ==> c.period_secs == 5
            &&& given.child_timeout_secs matches Some(secs) ==> c.child_timeout_secs == secs
            &&& given.child_timeout_secs is None ==> c.child_timeout_secs == 4
            &&& c.child_path == given.child_path
            &&& c.log_dir == given.log_dir
            &&& given.log_level matches Some(level) ==> c.log_level@ == level@
            &&& given.log_level is None ==> c.log_level@ == "info"@
        },
{
}

/// A refusal tells what is wrong: a duration of zero, both service commands, or an option that
/// was given beside one. A wrong value is told before a wrong combination.
pub proof fn refusals_tell_what_is_wrong(given: Options, cli: Result<Cli, UsageError>)
    requires
        call_ensures(Cli::from_options, (given,), cli),
    ensures
        given.period_secs == Some(0u64) <==> cli == Err::<Cli, UsageError>(
            UsageError::Zero(RuntimeOption::PeriodSecs),
        ),
        given.period_secs != Some(0u64) && given.child_timeout_secs == Some(0u64) <==> cli == Err::<
            Cli,
            UsageError,
        >(UsageError::Zero(RuntimeOption::ChildTimeoutSecs)),
        given.period_secs != Some(0u64) && given.child_timeout_secs != Some(0u64) && given.install
            && given.uninstall <==> cli == Err::<Cli, UsageError>(UsageError::InstallAndUninstall),
        cli matches Err(UsageError::Zero(option)) ==> option is PeriodSecs
            || option is ChildTimeoutSecs,
        cli matches Err(UsageError::NoRuntimeOverride(option)) ==> {
            &&& given.install != given.uninstall
            &&& option is PeriodSecs <==> given.period_secs is Some
            &&& option is ChildTimeoutSecs <==> given.period_secs is None
                && given.child_timeout_secs is Some
            &&& option is ChildPath <==> given.period_secs is None
                && given.child_timeout_secs is None && given.child_path is Some
            &&& option is LogDir ==> given.log_dir is Some && given.child_path is None
            &&& option is LogLevel ==> given.log_level is Some && given.log_dir is None
                && given.child_path is None
        },
{
}

/// A command line asks for what it says: to install, to uninstall, or without either to run.
pub proof fn commands_are_what_was_asked_for(cli: Cli, command: Command)
    requires
        call_ensures(Cli::command, (&cli,), command),
    ensures
        command is Install <==> cli.install,
        command is Run <==> !cli.install && !cli.uninstall,
        command is Uninstall <==> cli.uninstall && !cli.install,
{
}

/// The flags of the options, each its own.
pub proof fn flags_tell_options_apart(option: RuntimeOption, flag: &'static str)
    requires
        call_ensures(RuntimeOption::flag, (&option,), flag),
    ensures
        option is PeriodSecs <==> flag@ == "--period-secs"@,
        option is ChildTimeoutSecs <==> flag@ == "--child-timeout-secs"@,
        option is ChildPath <==> flag@ == "--child-path"@,
        option is LogDir <==> flag@ == "--log-dir"@,
        option is LogLevel <==> flag@ == "--log-level"@,
{
    reveal_strlit("--period-secs");
    reveal_strlit("--child-timeout-secs");
    reveal_strlit("--child-path");
    reveal_strlit("--log-dir");
    reveal_strlit("--log-level");
    assert("--period-secs"@.len() == 13);
    assert("--child-timeout-secs"@.len() == 20);
    assert("--child-path"@.len() == 12);
    assert("--log-dir"@.len() == 9);
    assert("--log-level"@.len() == 11);
}

/// A refusal names the flag that it is about.
pub proof fn usage_errors_name_their_flag(
    err: UsageError,
    text: String,
    option: RuntimeOption,
    flag: &'static str,
)
    requires
        call_ensures(UsageError::message, (&err,), text),
        call_ensures(RuntimeOption::flag, (&option,), flag),
    ensures
        err == UsageError::Zero(option) ==> text@ == "the value of "@ + flag@
            + " must be at least 1"@,
        err == UsageError::NoRuntimeOverride(option) ==> text@ == "the argument "@ + flag@
            + " cannot be used with --install or --uninstall"@,
        err is InstallAndUninstall ==> text@
            == "the argument --install cannot be used with --uninstall"@,
{
}

/// A configuration is refused exactly when the child could outlast the period, and the refusal
/// holds both durations as they were asked for.
pub proof fn children_end_before_the_next_cycle(
    cli: Cli,
    exe: PathBuf,
    default_log_dir: PathBuf,
    child_binary_name: &str,
    config: Result<Config, ConfigError>,
)
    requires
        call_ensures(Config::resolve, (&cli, &exe, default_log_dir, child_binary_name), config),
    ensures
        config is Ok <==> cli.child_timeout_secs < cli.period_secs,
        config matches Err(ConfigError::TimeoutNotBelowPeriod { timeout, period }) ==> timeout
            == cli.child_timeout_secs && period == cli.period_secs,
{
}

/// A configuration is what the command line asks for: its durations to the second, its level,
/// and a log directory that is absolute on its own as it is. What is not asked for is the
/// platform's. Both logs are in the log directory, each under its name.
pub proof fn configurations_are_what_was_asked_for(
    cli: Cli,
    exe: PathBuf,
    default_log_dir: PathBuf,
    child_binary_name: &str,
    config: Result<Config, ConfigError>,
)
    requires
        call_ensures(Config::resolve, (&cli, &exe, default_log_dir, child_binary_name), config),
    ensures
        config matches Ok(c) ==> {
            &&& c.period.secs == cli.period_secs && c.period.nanos == 0
            &&& c.child_timeout.secs == cli.child_timeout_secs && c.child_timeout.nanos == 0
            &&& c.log_level@ == cli.log_level@
            &&& cli.log_dir is None ==> c.log_dir == default_log_dir
            &&& cli.log_dir matches Some(dir) ==> is_absolute(dir) && has_prefix(path_parts(dir))
                ==> c.log_dir == dir
            &&& cli.child_path matches Some(path) ==> is_absolute(path) && has_prefix(
                path_parts(path),
            ) ==> c.child_path == path
            &&& ends_in(path_text(c.agent_log), "agent.log"@)
            &&& ends_in(path_text(c.child_log), "child.log"@)
            &&& c.agent_log != c.child_log
        },
{
    if let Ok(c) = config {
        reveal_strlit("agent.log");
        reveal_strlit("child.log");
        let one = path_text(c.agent_log);
        let other = path_text(c.child_log);
        assert("agent.log"@.len() == 9 && "child.log"@.len() == 9);
        if c.agent_log == c.child_log {
            assert(one.skip(one.len() - 9)[0] == 'a');
            assert(other.skip(other.len() - 9)[0] == 'c');
        }
    }
}

/// A path without a drive that was asked for, and the child's name where none was, is taken
/// from the executable's directory; one with a drive but without a root never depends on a
/// current directory either. Both logs are taken from the log directory.
pub proof fn paths_are_taken_from_the_executable(
    cli: Cli,
    exe: PathBuf,
    default_log_dir: PathBuf,
    child_binary_name: &str,
    config: Result<Config, ConfigError>,
    base: PathBuf,
)
    requires
        call_ensures(Config::resolve, (&cli, &exe, default_log_dir, child_binary_name), config),
        parent_of(exe) == Some(base),
    ensures
        config matches Ok(c) ==> {
            &&& cli.log_dir matches Some(dir) ==> !has_prefix(path_parts(dir)) ==> c.log_dir
                == path_joined(base, dir)
            &&& cli.child_path matches Some(path) ==> !has_prefix(path_parts(path))
                ==> c.child_path == path_joined(base, path)
            &&& cli.child_path is None ==> is_plain_name(child_binary_name@) ==> c.child_path
                == path_joined(base, path_of(child_binary_name@))
            &&& cli.log_dir is Some ==> is_absolute(base) ==> is_absolute(c.log_dir)
            &&& is_absolute(base) ==> is_absolute(c.child_path)
            &&& c.agent_log == path_joined(c.log_dir, path_of("agent.log"@))
            &&& c.child_log == path_joined(c.log_dir, path_of("child.log"@))
        },
{
}

/// `text` shows the two durations of a refused configuration.
pub open spec fn shows_durations(text: Seq<char>, timeout: Seq<char>, period: Seq<char>) -> bool {
    text == "child timeout ("@ + timeout + "s) must be shorter than the period ("@ + period
        + "s)"@
}

/// A refused configuration shows both durations, and they read back as they were.
pub proof fn refused_durations_read_back(
    timeout: u64,
    period: u64,
    text: String,
    first: String,
    second: String,
)
    requires
        call_ensures(
            ConfigError::message,
            (&ConfigError::TimeoutNotBelowPeriod { timeout, period },),
            text,
        ),
        call_ensures(decimal_string, (timeout,), first),
        call_ensures(decimal_string, (period,), second),
    ensures
        shows_durations(text@, first@, second@),
        number(first@) == timeout,
        number(second@) == period,
{
    decimals_read_back(timeout, first);
    decimals_read_back(period, second);
}

} // verus!
