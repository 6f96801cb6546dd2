//! Command-line interface: what the options mean together.

use vstd::prelude::*;

use std::path::PathBuf;

verus! {

/// Seconds between collection cycles when the option is not given.
pub const DEFAULT_PERIOD_SECS: u64 = 5;

/// Seconds to wait for the child when the option is not given.
pub const DEFAULT_CHILD_TIMEOUT_SECS: u64 = 4;

/// The options as they were given, before defaults and checks.
#[derive(Debug)]
pub struct Options {
    /// `--install` was given.
    pub install: bool,
    /// `--uninstall` was given.
    pub uninstall: bool,
    /// The value of `--period-secs`.
    pub period_secs: Option<u64>,
    /// The value of `--child-timeout-secs`.
    pub child_timeout_secs: Option<u64>,
    /// The value of `--child-path`.
    pub child_path: Option<PathBuf>,
    /// The value of `--log-dir`.
    pub log_dir: Option<PathBuf>,
    /// The value of `--log-level`.
    pub log_level: Option<String>,
}

/// Flamingo background agent.
#[derive(Debug)]
pub struct Cli {
    /// Register FlamingoAgent as a Windows service with automatic start, then start it.
    /// The runtime overrides below do not apply: the service is registered without
    /// arguments, so passing them here would silently have no effect.
    pub install: bool,
    /// Stop and remove the FlamingoAgent Windows service.
    pub uninstall: bool,
    /// Seconds between collection cycles.
    pub period_secs: u64,
    /// Seconds to wait for the child before killing it (must be below the period).
    pub child_timeout_secs: u64,
    /// Path to the logger-child binary. Defaults to a sibling of this executable.
    pub child_path: Option<PathBuf>,
    /// Directory for agent.log and child.log. Defaults to the platform data directory.
    pub log_dir: Option<PathBuf>,
    /// Log level filter: error, warn, info, debug or trace.
    pub log_level: String,
}

/// What the invocation asks for.
#[derive(Debug, Clone, Copy, PartialEq, Eq, Structural)]
pub enum Command {
    /// Register and start the Windows service.
    Install,
    /// Stop and remove the Windows service.
    Uninstall,
    /// Run the agent (as a service when started by the SCM, otherwise interactively).
    Run,
}

/// Options that configure a run of the agent itself; `--install` and `--uninstall` reject
/// them because the registered service is started without arguments.
#[derive(Debug, Clone, Copy, PartialEq, Eq, Structural)]
pub enum RuntimeOption {
    /// `--period-secs`.
    PeriodSecs,
    /// `--child-timeout-secs`.
    ChildTimeoutSecs,
    /// `--child-path`.
    ChildPath,
    /// `--log-dir`.
    LogDir,
    /// `--log-level`.
    LogLevel,
}

/// Why a set of options is refused.
#[derive(Debug, Clone, Copy, PartialEq, Eq, Structural)]
pub enum UsageError {
    /// The option's value must be at least 1.
    Zero(RuntimeOption),
    /// `--install` and `--uninstall` were given together.
    InstallAndUninstall,
    /// The option was given together with `--install` or `--uninstall`.
    NoRuntimeOverride(RuntimeOption),
}

impl Options {
    /// Whether an option was given explicitly; a default does not count.
    pub open spec fn gives(self, option: RuntimeOption) -> bool {
        match option {
            RuntimeOption::PeriodSecs => self.period_secs is Some,
            RuntimeOption::ChildTimeoutSecs => self.child_timeout_secs is Some,
            RuntimeOption::ChildPath => self.child_path is Some,
            RuntimeOption::LogDir => self.log_dir is Some,
            RuntimeOption::LogLevel => self.log_level is Some,
        }
    }

    /// The first runtime option given, in the order in which they are declared.
    pub open spec fn first_override(self) -> Option<RuntimeOption> {
        if self.gives(RuntimeOption::PeriodSecs) {
            Some(RuntimeOption::PeriodSecs)
        } else if self.gives(RuntimeOption::ChildTimeoutSecs) {
            Some(RuntimeOption::ChildTimeoutSecs)
        } else if self.gives(RuntimeOption::ChildPath) {
            Some(RuntimeOption::ChildPath)
        } else if self.gives(RuntimeOption::LogDir) {
            Some(RuntimeOption::LogDir)
        } else if self.gives(RuntimeOption::LogLevel) {
            Some(RuntimeOption::LogLevel)
        } else {
            None
        }
    }

    /// What is wrong with the options: values come before combinations.
    pub open spec fn refusal(self) -> Option<UsageError> {
        if self.period_secs == Some(0u64) {
            Some(UsageError::Zero(RuntimeOption::PeriodSecs))
        } else if self.child_timeout_secs == Some(0u64) {
            Some(UsageError::Zero(RuntimeOption::ChildTimeoutSecs))
        } else if self.install && self.uninstall {
            Some(UsageError::InstallAndUninstall)
        } else if self.install || self.uninstall {
            match self.first_override() {
                Some(option) => Some(UsageError::NoRuntimeOverride(option)),
                None => None,
            }
        } else {
            None
        }
    }

    fn find_override(&self) -> (option: Option<RuntimeOption>)
        ensures
            option == self.first_override(),
    {
        if self.period_secs.is_some() {
            Some(RuntimeOption::PeriodSecs)
        } else if self.child_timeout_secs.is_some() {
            Some(RuntimeOption::ChildTimeoutSecs)
        } else if self.child_path.is_some() {
            Some(RuntimeOption::ChildPath)
        } else if self.log_dir.is_some() {
            Some(RuntimeOption::LogDir)
        } else if self.log_level.is_some() {
            Some(RuntimeOption::LogLevel)
        } else {
            None
        }
    }
}

impl Cli {
    /// The command line that a set of options stands for: at least one second for each
    /// duration, no more than one of `--install` and `--uninstall`, no runtime option beside
    /// either, and defaults for what was not given.
    pub fn from_options(given: Options) -> (cli: Result<Cli, UsageError>)
        ensures
            match given.refusal() {
                Some(err) => cli == Err::<Cli, UsageError>(err),
                None => {
                    &&& cli matches Ok(c)
                    &&& c.install == given.install
                    &&& c.uninstall == given.uninstall
                    &&& c.period_secs == (match given.period_secs {
                        Some(secs) => secs,
                        None => DEFAULT_PERIOD_SECS,
                    })
                    &&& c.child_timeout_secs == (match given.child_timeout_secs {
                        Some(secs) => secs,
                        None => DEFAULT_CHILD_TIMEOUT_SECS,
                    })
                    &&& c.child_path == given.child_path
                    &&& c.log_dir == given.log_dir
                    &&& c.log_level@ == (match given.log_level {
                        Some(level) => level@,
                        None => "info"@,
                    })
                    &&& c.is_valid()
                },
            },
    {
        let overridden = given.find_override();
        let period_secs = match given.period_secs {
            Some(secs) => secs,
            None => DEFAULT_PERIOD_SECS,
        };
        if period_secs == 0 {
            return Err(UsageError::Zero(RuntimeOption::PeriodSecs));
        }
        let child_timeout_secs = match given.child_timeout_secs {
            Some(secs) => secs,
            None => DEFAULT_CHILD_TIMEOUT_SECS,
        };
        if child_timeout_secs == 0 {
            return Err(UsageError::Zero(RuntimeOption::ChildTimeoutSecs));
        }
        if given.install && given.uninstall {
            return Err(UsageError::InstallAndUninstall);
        }
        if given.install || given.uninstall {
            match overridden {
                Some(option) => {
                    return Err(UsageError::NoRuntimeOverride(option));
                },
                None => {},
            }
        }
        let log_level = match given.log_level {
            Some(level) => level,
            None => "info".to_owned(),
        };
        Ok(
            Cli {
                install: given.install,
                uninstall: given.uninstall,
                period_secs,
                child_timeout_secs,
                child_path: given.child_path,
                log_dir: given.log_dir,
                log_level,
            },
        )
    }

    /// What every accepted command line keeps to.
    pub open spec fn is_valid(self) -> bool {
        &&& self.period_secs >= 1
        &&& self.child_timeout_secs >= 1
        &&& !(self.install && self.uninstall)
        &&& self.install || self.uninstall ==> {
            &&& self.period_secs == DEFAULT_PERIOD_SECS
            &&& self.child_timeout_secs == DEFAULT_CHILD_TIMEOUT_SECS
            &&& self.child_path is None
            &&& self.log_dir is None
            &&& self.log_level@ == "info"@
        }
    }

    /// The requested command. `--install` and `--uninstall` are mutually exclusive
    /// ([`Cli::from_options`] rejects both together before this is reached).
    pub fn command(&self) -> (command: Command)
        ensures
            command == (if self.install {
                Command::Install
            } else if self.uninstall {
                Command::Uninstall
            } else {
                Command::Run
            }),
    {
        if self.install {
            Command::Install
        } else if self.uninstall {
            Command::Uninstall
        } else {
            Command::Run
        }
    }
}

/// The flag as it is written on the command line.
pub open spec fn option_flag(option: RuntimeOption) -> Seq<char> {
    match option {
        RuntimeOption::PeriodSecs => "--period-secs"@,
        RuntimeOption::ChildTimeoutSecs => "--child-timeout-secs"@,
        RuntimeOption::ChildPath => "--child-path"@,
        RuntimeOption::LogDir => "--log-dir"@,
        RuntimeOption::LogLevel => "--log-level"@,
    }
}

impl RuntimeOption {
    /// The flag as it is written on the command line.
    pub fn flag(&self) -> (flag: &'static str)
        ensures
            flag@ == option_flag(*self),
    {
        match self {
            RuntimeOption::PeriodSecs => "--period-secs",
            RuntimeOption::ChildTimeoutSecs => "--child-timeout-secs",
            RuntimeOption::ChildPath => "--child-path",
            RuntimeOption::LogDir => "--log-dir",
            RuntimeOption::LogLevel => "--log-level",
        }
    }
}

/// The text of a usage error.
pub open spec fn usage_error_text(err: UsageError) -> Seq<char> {
    match err {
        UsageError::Zero(option) => "the value of "@ + option_flag(option)
            + " must be at least 1"@,
        UsageError::InstallAndUninstall =>
            "the argument --install cannot be used with --uninstall"@,
        UsageError::NoRuntimeOverride(option) => "the argument "@ + option_flag(option)
            + " cannot be used with --install or --uninstall"@,
    }
}

impl UsageError {
    /// The error as one line of text.
    pub fn message(&self) -> (text: String)
        ensures
            text@ == usage_error_text(*self),
    {
        match self {
            UsageError::Zero(option) => {
                let mut text = "the value of ".to_owned();
                text.append(option.flag());
                text.append(" must be at least 1");
                text
            },
            UsageError::InstallAndUninstall =>
                "the argument --install cannot be used with --uninstall".to_owned(),
            UsageError::NoRuntimeOverride(option) => {
                let mut text = "the argument ".to_owned();
                text.append(option.flag());
                text.append(" cannot be used with --install or --uninstall");
                text
            },
        }
    }
}

/// What an accepted `--install` or `--uninstall` leaves for a run is the defaults alone: the
/// service is registered without arguments, and no override could have been lost.
pub proof fn service_commands_carry_no_overrides(given: Options)
    requires
        given.install || given.uninstall,
        given.refusal() is None,
    ensures
        forall|option: RuntimeOption| !given.gives(option),
{
    assert forall|option: RuntimeOption| !given.gives(option) by {
        match option {
            RuntimeOption::PeriodSecs => {},
            RuntimeOption::ChildTimeoutSecs => {},
            RuntimeOption::ChildPath => {},
            RuntimeOption::LogDir => {},
            RuntimeOption::LogLevel => {},
        }
    }
}

/// A bare command line is accepted, and its defaults let the child finish within the period:
/// this is how the registered service starts.
pub proof fn bare_invocation_is_accepted(given: Options)
    requires
        forall|option: RuntimeOption| !given.gives(option),
        !(given.install && given.uninstall),
    ensures
        given.refusal() is None,
        DEFAULT_CHILD_TIMEOUT_SECS < DEFAULT_PERIOD_SECS,
{
    assert(!given.gives(RuntimeOption::PeriodSecs));
    assert(!given.gives(RuntimeOption::ChildTimeoutSecs));
    assert(!given.gives(RuntimeOption::ChildPath));
    assert(!given.gives(RuntimeOption::LogDir));
    assert(!given.gives(RuntimeOption::LogLevel));
}

} // verus!
