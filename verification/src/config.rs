//! Resolved runtime configuration: CLI overrides on top of platform defaults.

use vstd::prelude::*;

use std::path::PathBuf;

use crate::cli::Cli;
use crate::paths;
use crate::paths::{
    begins_with_two_separators, ends_in, has_parent, is_absolute, is_ordinary, is_placed,
    is_plain_name, parent_of, parent_parts, path_joined, path_of, path_parts, path_text, with_root,
    PathPart,
};
use crate::span::Span;
use crate::text::{decimal, decimal_string};

verus! {

/// Everything the agent needs at run time, with all paths absolute.
#[derive(Debug)]
pub struct Config {
    /// Time between collection cycles.
    pub period: Span,
    /// Maximum time to wait for the child each cycle.
    pub child_timeout: Span,
    /// Absolute path of the child binary.
    pub child_path: PathBuf,
    /// Directory holding both logs.
    pub log_dir: PathBuf,
    /// The agent's own log.
    pub agent_log: PathBuf,
    /// The child's log (the file whose ACL is enforced).
    pub child_log: PathBuf,
    /// tracing filter directive.
    pub log_level: String,
}

/// Configuration validation failures.
#[derive(Debug, Clone, Copy, PartialEq, Eq, Structural)]
pub enum ConfigError {
    /// The child could overrun the next cycle.
    TimeoutNotBelowPeriod {
        /// Requested timeout in seconds.
        timeout: u64,
        /// Requested period in seconds.
        period: u64,
    },
}

/// The text of a configuration error.
pub open spec fn config_error_text(err: ConfigError) -> Seq<char> {
    match err {
        ConfigError::TimeoutNotBelowPeriod { timeout, period } => "child timeout ("@ + decimal(
            timeout as nat,
        ) + "s) must be shorter than the period ("@ + decimal(period as nat) + "s)"@,
    }
}

impl ConfigError {
    /// The error as one line of text.
    pub fn message(&self) -> (text: String)
        ensures
            text@ == config_error_text(*self),
    {
        match self {
            ConfigError::TimeoutNotBelowPeriod { timeout, period } => {
                let mut text = "child timeout (".to_owned();
                text.append(decimal_string(*timeout).as_str());
                text.append("s) must be shorter than the period (");
                text.append(decimal_string(*period).as_str());
                text.append("s)");
                text
            },
        }
    }
}

/// `path` is `name` in the directory `dir`: what joining the two gives, a path whose text ends
/// in the name. At the beginning of a network or device path, which components that gives
/// depends on the platform; anywhere else it is one more.
pub open spec fn is_file_in(path: PathBuf, dir: PathBuf, name: Seq<char>) -> bool {
    &&& path == path_joined(dir, path_of(name))
    &&& ends_in(path_text(path), name)
    &&& is_ordinary(dir) ==> path_parts(path) == with_root(path_parts(dir)).push(
        PathPart::Name(name),
    )
}

/// The directory of the executable `exe`.
pub open spec fn exe_dir(exe: PathBuf) -> PathBuf {
    match parent_of(exe) {
        Some(dir) => dir,
        None => path_of(Seq::empty()),
    }
}

proof fn lemma_log_names()
    ensures
        is_plain_name("agent.log"@),
        is_plain_name("child.log"@),
{
    reveal_strlit("agent.log");
    reveal_strlit("child.log");
    assert("agent.log"@.len() == 9 && "child.log"@.len() == 9);
}

impl Config {
    /// Both logs are in the log directory, and a child cannot outlast the period.
    pub open spec fn is_consistent(self) -> bool {
        &&& is_file_in(self.agent_log, self.log_dir, "agent.log"@)
        &&& is_file_in(self.child_log, self.log_dir, "child.log"@)
        &&& self.child_timeout.secs < self.period.secs
        &&& self.child_timeout.nanos == 0
        &&& self.period.nanos == 0
    }

    /// What a command line and the platform's defaults make up: each override wins, and the
    /// child defaults to a sibling of the agent's executable `exe`. A relative override is
    /// taken from the executable's directory, whatever directory is the current one.
    pub open spec fn follows(
        self,
        cli: Cli,
        exe: PathBuf,
        default_log_dir: PathBuf,
        child_binary_name: Seq<char>,
    ) -> bool {
        &&& self.is_consistent()
        &&& self.period.secs == cli.period_secs
        &&& self.child_timeout.secs == cli.child_timeout_secs
        &&& path_parts(exe_dir(exe)) == parent_parts(path_parts(exe))
        &&& begins_with_two_separators(path_text(exe_dir(exe))) ==> begins_with_two_separators(
            path_text(exe),
        )
        &&& match cli.log_dir {
            Some(dir) => is_placed(self.log_dir, exe_dir(exe), dir),
            None => self.log_dir == default_log_dir,
        }
        &&& match cli.child_path {
            Some(path) => is_placed(self.child_path, exe_dir(exe), path),
            None => {
                &&& is_placed(self.child_path, exe_dir(exe), path_of(child_binary_name))
                &&& is_plain_name(child_binary_name) ==> is_file_in(
                    self.child_path,
                    exe_dir(exe),
                    child_binary_name,
                )
            },
        }
        &&& self.log_level@ == cli.log_level@
        &&& is_absolute(exe) && has_parent(path_parts(exe)) && is_absolute(default_log_dir)
            ==> self.has_absolute_paths()
    }

    /// No path depends on a current directory.
    pub open spec fn has_absolute_paths(self) -> bool {
        &&& is_absolute(self.child_path)
        &&& is_absolute(self.log_dir)
        &&& is_absolute(self.agent_log)
        &&& is_absolute(self.child_log)
    }

    /// Combine CLI values with platform defaults. `exe` is the agent's own executable path;
    /// the child defaults to a sibling named `child_binary_name`, and relative paths are taken
    /// from its directory.
    pub fn resolve(
        cli: &Cli,
        exe: &PathBuf,
        default_log_dir: PathBuf,
        child_binary_name: &str,
    ) -> (config: Result<Config, ConfigError>)
        ensures
            match config {
                Ok(cfg) => cfg.follows(*cli, *exe, default_log_dir, child_binary_name@),
                Err(err) => {
                    &&& cli.child_timeout_secs >= cli.period_secs
                    &&& err == ConfigError::TimeoutNotBelowPeriod {
                        timeout: cli.child_timeout_secs,
                        period: cli.period_secs,
                    }
                },
            },
    {
        if cli.child_timeout_secs >= cli.period_secs {
            return Err(
                ConfigError::TimeoutNotBelowPeriod {
                    timeout: cli.child_timeout_secs,
                    period: cli.period_secs,
                },
            );
        }
        let exe_dir = match paths::parent(exe) {
            Some(dir) => dir,
            None => paths::path_from(""),
        };
        let log_dir = match &cli.log_dir {
            Some(dir) => paths::place_in(&exe_dir, dir),
            None => default_log_dir,
        };
        let child_path = match &cli.child_path {
            Some(path) => paths::place_in(&exe_dir, path),
            None => place_name_in(&exe_dir, child_binary_name),
        };
        proof {
            lemma_log_names();
            reveal_strlit("");
            assert(""@ == Seq::<char>::empty());
            let parts = path_parts(*exe);
            if is_absolute(*exe) && has_parent(parts) {
                assert(parts.drop_last()[0] == parts[0]);
            }
        }
        Ok(
            Config {
                period: Span::from_secs(cli.period_secs),
                child_timeout: Span::from_secs(cli.child_timeout_secs),
                child_path,
                agent_log: paths::join_name(&log_dir, "agent.log"),
                child_log: paths::join_name(&log_dir, "child.log"),
                log_dir,
                log_level: cli.log_level.clone(),
            },
        )
    }
}

/// The program `name` in the directory `dir`.
fn place_name_in(dir: &PathBuf, name: &str) -> (path: PathBuf)
    ensures
        is_placed(path, *dir, path_of(name@)),
        is_plain_name(name@) ==> is_file_in(path, *dir, name@),
{
    let file = paths::path_from(name);
    proof {
        if is_plain_name(name@) {
            paths::lemma_name_in(*dir, file, name@);
        }
    }
    paths::place_in(dir, &file)
}

/// Each field of a configuration depends on its own option alone: the times and the log
/// level on theirs, the log directory and both logs on the log directory's, the child on the
/// child's. What else differs between two command lines, whether the one installs or removes
/// the service included, changes none of them.
pub proof fn fields_depend_on_their_own_option(
    one: Config,
    other: Config,
    cli: Cli,
    changed: Cli,
    exe: PathBuf,
    default_log_dir: PathBuf,
    child_binary_name: Seq<char>,
)
    requires
        one.follows(cli, exe, default_log_dir, child_binary_name),
        other.follows(changed, exe, default_log_dir, child_binary_name),
    ensures
        cli.period_secs == changed.period_secs ==> one.period == other.period,
        cli.child_timeout_secs == changed.child_timeout_secs ==> one.child_timeout
            == other.child_timeout,
        cli.log_level@ == changed.log_level@ ==> one.log_level@ == other.log_level@,
        cli.log_dir == changed.log_dir ==> {
            &&& one.log_dir == other.log_dir
            &&& one.agent_log == other.agent_log
            &&& one.child_log == other.child_log
        },
        cli.child_path == changed.child_path ==> one.child_path == other.child_path,
{
}

} // verus!
