//! Laws of the process: its exit codes, its privilege, and the order of its bootstrap.

use vstd::prelude::*;

use std::path::PathBuf;

use crate::app::{
    after_check, after_describe, after_hook, after_lock, after_logging, after_loop, after_relaunch,
    after_run, after_runtime, after_secure_child_log, after_secure_dir, agent_step,
    exit_code_for_relaunch, install_verdict, interactive_outcome, is_shell_trace, relaunch_outcome,
    relaunch_report, require_privilege, resolve_config, run_plan, shell_step, uninstall_verdict,
    AgentError, AgentEvent, AgentRecord, AgentRun, Privilege, RunPlan, ShellEvent, ShellRun,
    Verdict,
};
use crate::cli::Cli;
use crate::config::{Config, ConfigError};
use crate::logging::{Level, LoggingError};
use crate::paths::path_text;
use crate::platform::{IoError, PlatformError};
use crate::service::{Dispatch, ServiceError};

verus! {

/// The exit code of an elevated instance is that of the process that launched it, whatever it
/// is, as long as a status byte holds it; so the process exits with 0 only where that instance
/// did. A code that no byte holds is a failure.
pub proof fn the_elevated_exit_code_is_passed_on(
    code: i32,
    verdict: (u8, Option<&'static str>),
    outcome: (u8, Option<String>),
    run: ShellRun,
)
    requires
        call_ensures(exit_code_for_relaunch, (Ok::<i32, PlatformError>(code),), verdict),
        call_ensures(relaunch_outcome, (Ok::<i32, PlatformError>(code),), outcome),
        call_ensures(after_relaunch, (Ok::<i32, PlatformError>(code),), run),
    ensures
        0 <= code <= 255 ==> verdict.0 == code && outcome.0 == code && run->code == code,
        verdict.0 == 0 <==> code == 0,
        outcome.0 == 0 <==> code == 0,
        run is Exit && (run->code == 0 <==> code == 0),
        code < 0 || code > 255 ==> verdict.0 == 1 && outcome.0 == 1 && run->code == 1,
        verdict.1 is None && outcome.1 is None && run->line is None,
{
}

/// A relaunch that did not take place never counts as a success and always says why: with 3
/// where the approval, the policy or the platform stood in the way, and with 1 otherwise.
pub proof fn a_failed_relaunch_is_a_failure(
    err: PlatformError,
    verdict: (u8, Option<&'static str>),
    outcome: (u8, Option<String>),
)
    requires
        call_ensures(exit_code_for_relaunch, (Err::<i32, PlatformError>(err),), verdict),
        call_ensures(relaunch_outcome, (Err::<i32, PlatformError>(err),), outcome),
    ensures
        verdict.0 == outcome.0,
        verdict.0 == 3 <==> err is ElevationDeclined || err is ElevationBlockedByPolicy || err
            is Unsupported,
        verdict.0 == 1 <==> !(err is ElevationDeclined || err is ElevationBlockedByPolicy || err
            is Unsupported),
        verdict.1 is Some && outcome.1 is Some,
        err is ElevationDeclined ==> verdict.1->0@ == "administrator approval was declined"@,
        err is ElevationBlockedByPolicy ==> verdict.1->0@
            == "elevation is blocked by policy for this account; run from an administrator account"@,
        err is Unsupported ==> verdict.1->0@
            == "this command needs root privileges; run it with sudo"@,
{
}

/// A privileged process goes on, an unprivileged one relaunches itself, and one that cannot
/// tell fails.
pub proof fn privilege_decides(
    privileged: Result<bool, PlatformError>,
    privilege: Privilege,
    run: ShellRun,
)
    requires
        call_ensures(require_privilege, (privileged,), privilege),
        call_ensures(after_check, (privileged,), run),
    ensures
        privilege is Granted <==> privileged == Ok::<bool, PlatformError>(true),
        privilege is Relaunch <==> privileged == Ok::<bool, PlatformError>(false),
        privileged is Err ==> (privilege matches Privilege::Unknown { code, .. } && code == 1),
        run is InstallHandler <==> privileged == Ok::<bool, PlatformError>(true),
        run is Relaunch <==> privileged == Ok::<bool, PlatformError>(false),
        privileged is Err ==> (run matches ShellRun::Exit { code, line } && code == 1 && line
            is Some),
{
}

/// The agent is run once Ctrl-C is hooked up, and not otherwise.
pub proof fn the_hook_comes_before_the_run(hooked: Result<(), String>, run: ShellRun)
    requires
        call_ensures(after_hook, (hooked,), run),
    ensures
        run is RunAgent <==> hooked is Ok,
        hooked is Err ==> (run matches ShellRun::Exit { code, line } && code == 1 && line is Some),
{
}

/// A run from a shell exits with 0 exactly where it ended well, with 5 exactly where another
/// instance holds the lock, and with 1 otherwise; a failure is explained, a success is silent.
pub proof fn runs_exit_as_they_ended(
    result: Result<(), AgentError>,
    outcome: (u8, Option<String>),
    run: ShellRun,
)
    requires
        call_ensures(interactive_outcome, (result,), outcome),
        call_ensures(after_run, (result,), run),
    ensures
        run is Exit && run->code == outcome.0,
        outcome.0 == 0 <==> result is Ok,
        outcome.1 is None <==> result is Ok,
        run->line is None <==> result is Ok,
        outcome.0 == 0 || outcome.0 == 1 || outcome.0 == 5,
        result matches Err(AgentError::AcquiringLock(PlatformError::AlreadyRunning { .. }))
            ==> outcome.0 == 5,
        result matches Err(err) ==> err is LocatingExecutable || err is Config || err
            is InitialisingLogging || err is BuildingRuntime ==> outcome.0 == 1,
        result matches Err(AgentError::AcquiringLock(source)) ==> !(source is AlreadyRunning)
            ==> outcome.0 == 1,
{
}

/// The same, as an error's own exit code.
pub proof fn errors_have_exit_codes(err: AgentError, code: u8, source: PlatformError)
    requires
        call_ensures(AgentError::exit_code, (&err,), code),
        err == AgentError::AcquiringLock(source) || err == AgentError::ReadingProtection(source)
            || (err matches AgentError::SecuringLogDir { source: s, .. } && s == source) || (err
            matches AgentError::SecuringChildLog { source: s, .. } && s == source),
    ensures
        code == 5 <==> source is AlreadyRunning,
        code == 1 <==> !(source is AlreadyRunning),
{
}

/// A service management command exits with 0 exactly where it succeeded, with 4 exactly where
/// there is no service manager, and with 1 otherwise. It prints one line: on stdout for a
/// success, on stderr for a failure.
pub proof fn management_commands_exit_as_they_ended(
    result: Result<(), ServiceError>,
    install: Verdict,
    uninstall: Verdict,
)
    requires
        call_ensures(install_verdict, (result,), install),
        call_ensures(uninstall_verdict, (result,), uninstall),
    ensures
        install.code == uninstall.code,
        install.code == 0 <==> result is Ok,
        install.code == 4 <==> result == Err::<(), ServiceError>(ServiceError::Unsupported),
        install.code == 1 <==> result is Err && !(result->Err_0 is Unsupported),
        install.stdout is Some <==> result is Ok,
        install.stderr is Some <==> result is Err,
        uninstall.stdout is Some <==> result is Ok,
        uninstall.stderr is Some <==> result is Err,
        result is Ok ==> install.stdout->0@ == "FlamingoAgent"@ + " installed and running"@,
        result is Ok ==> uninstall.stdout->0@ == "FlamingoAgent"@ + " removed"@,
{
}

/// A refusal for want of rights comes with the advice to run as administrator, and nothing else
/// does.
pub proof fn missing_rights_are_explained(
    err: ServiceError,
    verdict: Verdict,
    chain: String,
    source: crate::service::ApiError,
)
    requires
        call_ensures(install_verdict, (Err::<(), ServiceError>(err),), verdict)
            || call_ensures(uninstall_verdict, (Err::<(), ServiceError>(err),), verdict),
        call_ensures(ServiceError::chain, (&err,), chain),
        err == ServiceError::Api(source) || err == (ServiceError::StopFailed { source }),
    ensures
        verdict.stderr is Some,
        verdict.stderr->0@ == if source.code == Some(5i32) {
            chain@ + "; run as administrator"@
        } else {
            chain@
        },
{
}

/// What a shell is told before the agent runs is what failed and the error's own words; an
/// elevation that failed for no known reason comes with them, and one with a known reason
/// without.
pub proof fn shells_are_told_what_failed(
    err: PlatformError,
    words: String,
    privilege: Privilege,
    checked: ShellRun,
    message: (u8, Option<&'static str>),
    outcome: (u8, Option<String>),
    relaunched: ShellRun,
    error: String,
    hooked: ShellRun,
)
    requires
        call_ensures(PlatformError::message, (&err,), words),
        call_ensures(require_privilege, (Err::<bool, PlatformError>(err),), privilege),
        call_ensures(after_check, (Err::<bool, PlatformError>(err),), checked),
        call_ensures(exit_code_for_relaunch, (Err::<i32, PlatformError>(err),), message),
        call_ensures(relaunch_outcome, (Err::<i32, PlatformError>(err),), outcome),
        call_ensures(after_relaunch, (Err::<i32, PlatformError>(err),), relaunched),
        call_ensures(after_hook, (Err::<(), String>(error),), hooked),
    ensures
        privilege matches Privilege::Unknown { line, .. } && line@
            == "cannot determine privilege level: "@ + words@,
        checked matches ShellRun::Exit { line: Some(line), .. } && line@
            == "cannot determine privilege level: "@ + words@,
        hooked matches ShellRun::Exit { line: Some(line), .. } && line@
            == "cannot install Ctrl-C handler: "@ + error@,
        relaunched is Exit && relaunched->code == outcome.0,
        relaunched matches ShellRun::Exit { line: Some(line), .. } && line@ == outcome.1->0@,
        outcome.0 == 3 ==> outcome.1->0@ == message.1->0@,
        outcome.0 == 1 ==> outcome.1->0@ == "could not relaunch with elevation"@ + ": "@ + words@,
{
    reveal_strlit("could not relaunch with elevation");
    reveal_strlit("administrator approval was declined");
    reveal_strlit(
        "elevation is blocked by policy for this account; run from an administrator account",
    );
    reveal_strlit("this command needs root privileges; run it with sudo");
    assert("could not relaunch with elevation"@.len() == 33);
    assert("administrator approval was declined"@.len() == 35);
    assert("elevation is blocked by policy for this account; run from an administrator account"@.len()
        == 82);
    assert("this command needs root privileges; run it with sudo"@.len() == 52);
}

/// A run that failed is explained by its error, on the shell and in the log, and a dispatcher
/// that failed by its own.
pub proof fn failed_runs_are_told_by_their_error(
    err: AgentError,
    words: String,
    outcome: (u8, Option<String>),
    run: ShellRun,
    failed: ServiceError,
    told: String,
    plan: RunPlan,
)
    requires
        call_ensures(AgentError::message, (&err,), words),
        call_ensures(interactive_outcome, (Err::<(), AgentError>(err),), outcome),
        call_ensures(after_run, (Err::<(), AgentError>(err),), run),
        call_ensures(ServiceError::message, (&failed,), told),
        call_ensures(run_plan, (Err::<Dispatch, ServiceError>(failed),), plan),
    ensures
        outcome.1 matches Some(line) && line@ == words@,
        run matches ShellRun::Exit { line: Some(line), .. } && line@ == words@,
        plan matches RunPlan::Fail { line, .. } && line@ == "service dispatcher failed: "@ + told@,
{
}

/// A failure to protect the child log or to read its protection back is logged by its error
/// before it ends the run.
pub proof fn failed_bootstraps_are_logged(
    cfg: Config,
    interactive: bool,
    described: Result<String, PlatformError>,
    turn: (AgentRun, Option<AgentRecord>),
    err: AgentError,
    words: String,
)
    requires
        call_ensures(after_describe, (&cfg, interactive, described), turn),
        turn.0 == AgentRun::Ended(Err(err)),
        call_ensures(AgentError::message, (&err,), words),
    ensures
        turn.1 matches Some(AgentRecord::BootstrapFailed { error }) && error@ == words@,
{
}

/// A bare invocation runs from the shell exactly where no service manager started it, and exits
/// with 0 where a service ran to its end.
pub proof fn bare_invocations_follow_the_dispatcher(
    dispatched: Result<Dispatch, ServiceError>,
    plan: RunPlan,
)
    requires
        call_ensures(run_plan, (dispatched,), plan),
    ensures
        plan is Interactive <==> dispatched == Ok::<Dispatch, ServiceError>(Dispatch::NotAService),
        plan == RunPlan::Exit(0) <==> dispatched == Ok::<Dispatch, ServiceError>(
            Dispatch::RanAsService,
        ),
        dispatched is Err ==> (plan matches RunPlan::Fail { code, .. } && code == 1),
{
}

/// A configuration is refused exactly where the executable is unknown or the child may run as
/// long as the period.
pub proof fn configurations_are_refused_for_two_reasons(
    cli: Cli,
    exe: Result<PathBuf, IoError>,
    default_log_dir: PathBuf,
    child_binary_name: &str,
    resolved: Result<Config, AgentError>,
)
    requires
        call_ensures(resolve_config, (&cli, exe, default_log_dir, child_binary_name), resolved),
    ensures
        resolved is Ok <==> exe is Ok && cli.child_timeout_secs < cli.period_secs,
        exe matches Err(err) ==> resolved == Err::<Config, AgentError>(
            AgentError::LocatingExecutable(err),
        ),
        exe is Ok && resolved is Err ==> (resolved matches Err(
            AgentError::Config(ConfigError::TimeoutNotBelowPeriod { timeout, period }),
        ) && timeout == cli.child_timeout_secs && period == cli.period_secs),
        resolved matches Ok(cfg) ==> cfg.period.secs == cli.period_secs && cfg.child_timeout.secs
            == cli.child_timeout_secs && cfg.period.nanos == 0 && cfg.child_timeout.nanos == 0
            && cfg.log_level@ == cli.log_level@,
        resolved matches Ok(cfg) ==> cli.log_dir is None ==> cfg.log_dir == default_log_dir,
{
}

/// A relaunch that failed for no known reason is reported with the error's detail behind the
/// message; a message that tells the reason stands alone, and without a message nothing is said.
pub proof fn unknown_failures_are_detailed(
    message: Option<&'static str>,
    detail: Option<String>,
    line: Option<String>,
)
    requires
        call_ensures(relaunch_report, (message, detail), line),
    ensures
        line is Some <==> message is Some,
        message matches Some(told) ==> (detail is None || told@
            != "could not relaunch with elevation"@ ==> line->0@ == told@),
        message matches Some(told) ==> (detail matches Some(why) ==> told@
            == "could not relaunch with elevation"@ ==> line->0@ == told@ + ": "@ + why@),
{
}

/// The run begins with the log directory and goes on to the lock, the log, the child log, its
/// protection, the runtime and the loop; each step leads to the next where it succeeded, and
/// ends the run with its error where it did not.
pub proof fn each_step_leads_to_the_next(
    cfg: Config,
    interactive: bool,
    before: AgentRun,
    event: AgentEvent,
    after: AgentRun,
    record: Option<AgentRecord>,
)
    requires
        agent_step(cfg, interactive, before, event, after, record),
    ensures
        after is AcquireLock <==> (event matches AgentEvent::DirSecured(Ok(_))),
        after is InitLogging <==> (event matches AgentEvent::Locked(Ok(_))),
        after is SecureChildLog <==> (event matches AgentEvent::LoggingReady(Ok(_))),
        after is DescribeChildLog <==> (event matches AgentEvent::ChildLogSecured(Ok(_))),
        after is BuildRuntime <==> (event matches AgentEvent::Described(Ok(_))),
        after is RunLoop <==> (event matches AgentEvent::RuntimeBuilt(Ok(_))),
        (after matches AgentRun::Ended(Ok(_))) <==> event is LoopEnded,
        event matches AgentEvent::DirSecured(Err(err)) ==> (after matches AgentRun::Ended(
            Err(AgentError::SecuringLogDir { path, source }),
        ) && source == err && path@ == path_text(cfg.log_dir)),
        event matches AgentEvent::Locked(Err(err)) ==> after == AgentRun::Ended(
            Err(AgentError::AcquiringLock(err)),
        ),
        event matches AgentEvent::LoggingReady(Err(err)) ==> after == AgentRun::Ended(
            Err(AgentError::InitialisingLogging(err)),
        ),
        event matches AgentEvent::ChildLogSecured(Err(err)) ==> (after matches AgentRun::Ended(
            Err(AgentError::SecuringChildLog { path, source }),
        ) && source == err && path@ == path_text(cfg.child_log)),
        event matches AgentEvent::Described(Err(err)) ==> after == AgentRun::Ended(
            Err(AgentError::ReadingProtection(err)),
        ),
        event matches AgentEvent::RuntimeBuilt(Err(err)) ==> after == AgentRun::Ended(
            Err(AgentError::BuildingRuntime(err)),
        ),
        before is SecureDir <==> event is DirSecured,
        before is AcquireLock <==> event is Locked,
        before is InitLogging <==> event is LoggingReady,
        before is SecureChildLog <==> event is ChildLogSecured,
        before is DescribeChildLog <==> event is Described,
        before is BuildRuntime <==> event is RuntimeBuilt,
        before is RunLoop <==> event is LoopEnded,
        !(after is SecureDir),
{
}

/// What a run logs around its loop: the announcement with what it runs and how, that it
/// stopped, and a failure to protect the child log; nothing before there is a log.
pub proof fn runs_announce_themselves(
    cfg: Config,
    interactive: bool,
    before: AgentRun,
    event: AgentEvent,
    after: AgentRun,
    record: Option<AgentRecord>,
)
    requires
        agent_step(cfg, interactive, before, event, after, record),
    ensures
        record is Some <==> (event matches AgentEvent::ChildLogSecured(Err(_))) || event
            is Described || event is LoopEnded,
        event is LoopEnded ==> record == Some(AgentRecord::Stopped),
        event matches AgentEvent::Described(Ok(text)) ==> {
            &&& record matches Some(
                AgentRecord::Starting {
                    mode,
                    child,
                    child_log,
                    protection,
                    period_secs,
                    child_timeout_secs,
                },
            )
            &&& interactive ==> mode@ == "interactive"@
            &&& !interactive ==> mode@ == "service"@
            &&& child@ == path_text(cfg.child_path)
            &&& child_log@ == path_text(cfg.child_log)
            &&& protection == text
            &&& period_secs == cfg.period.secs
            &&& child_timeout_secs == cfg.child_timeout.secs
        },
        (event matches AgentEvent::ChildLogSecured(Err(_))) || (event matches AgentEvent::Described(
            Err(_),
        )) ==> record matches Some(AgentRecord::BootstrapFailed { .. }),
{
}

/// So do the calls that take a run up to its log: whatever fails before there is one ends the
/// run, with the error and without a record.
pub proof fn runs_get_their_log(
    cfg: Config,
    secured: Result<(), PlatformError>,
    locking: AgentRun,
    locked: Result<(), PlatformError>,
    opening: AgentRun,
    ready: Result<(), LoggingError>,
    securing: AgentRun,
)
    requires
        call_ensures(after_secure_dir, (&cfg, secured), locking),
        call_ensures(after_lock, (locked,), opening),
        call_ensures(after_logging, (ready,), securing),
    ensures
        locking is AcquireLock <==> secured is Ok,
        secured matches Err(err) ==> (locking matches AgentRun::Ended(
            Err(AgentError::SecuringLogDir { path, source }),
        ) && source == err && path@ == path_text(cfg.log_dir)),
        opening is InitLogging <==> locked is Ok,
        locked matches Err(err) ==> opening == AgentRun::Ended(
            Err(AgentError::AcquiringLock(err)),
        ),
        securing is SecureChildLog <==> ready is Ok,
        ready matches Err(err) ==> securing == AgentRun::Ended(
            Err(AgentError::InitialisingLogging(err)),
        ),
{
    assert(agent_step(cfg, true, AgentRun::AcquireLock, AgentEvent::Locked(locked), opening, None));
    assert(agent_step(
        cfg,
        true,
        AgentRun::InitLogging,
        AgentEvent::LoggingReady(ready),
        securing,
        None,
    ));
}

/// And so do the calls that take it from there to its end: the child log is protected before it
/// is described, and the loop runs once there is a runtime.
pub proof fn runs_reach_their_loop(
    cfg: Config,
    interactive: bool,
    secured: Result<(), PlatformError>,
    describing: (AgentRun, Option<AgentRecord>),
    described: Result<String, PlatformError>,
    building: (AgentRun, Option<AgentRecord>),
    built: Result<(), IoError>,
    looping: AgentRun,
    ended: (AgentRun, Option<AgentRecord>),
)
    requires
        call_ensures(after_secure_child_log, (&cfg, secured), describing),
        call_ensures(after_describe, (&cfg, interactive, described), building),
        call_ensures(after_runtime, (built,), looping),
        call_ensures(after_loop, (), ended),
    ensures
        describing.0 is DescribeChildLog <==> secured is Ok,
        describing.1 is None <==> secured is Ok,
        secured matches Err(err) ==> (describing.0 matches AgentRun::Ended(
            Err(AgentError::SecuringChildLog { path, source }),
        ) && source == err && path@ == path_text(cfg.child_log)),
        building.0 is BuildRuntime <==> described is Ok,
        building.1 matches Some(AgentRecord::Starting { .. }) <==> described is Ok,
        described matches Err(err) ==> building.0 == AgentRun::Ended(
            Err(AgentError::ReadingProtection(err)),
        ),
        looping is RunLoop <==> built is Ok,
        built matches Err(err) ==> looping == AgentRun::Ended(
            Err(AgentError::BuildingRuntime(err)),
        ),
        ended.0 == AgentRun::Ended(Ok(())),
        ended.1 == Some(AgentRecord::Stopped),
{
    assert(agent_step(
        cfg,
        interactive,
        AgentRun::BuildRuntime,
        AgentEvent::RuntimeBuilt(built),
        looping,
        None,
    ));
    assert(agent_step(
        cfg,
        interactive,
        AgentRun::RunLoop,
        AgentEvent::LoopEnded,
        ended.0,
        ended.1,
    ));
}

/// Only a failed bootstrap is logged as an error.
pub proof fn run_levels(record: AgentRecord, level: Level, message: &'static str)
    requires
        call_ensures(AgentRecord::level, (&record,), level),
        call_ensures(AgentRecord::message, (&record,), message),
    ensures
        level == Level::Error <==> record is BootstrapFailed,
        level == Level::Info <==> !(record is BootstrapFailed),
        record is BootstrapFailed ==> message@ == "bootstrap failed"@,
        record is Starting ==> message@ == "flamingo-agent starting"@,
        record is Stopped ==> message@ == "flamingo-agent stopped"@,
{
}

/// From a shell, the first thing to do is to check the privilege, and what comes of each step
/// decides the next: an elevated instance's exit code and the run's own are the process's.
pub proof fn shells_exit_with_what_they_ran(
    runs: Seq<ShellRun>,
    events: Seq<ShellEvent>,
    code: u8,
    line: Option<String>,
)
    requires
        is_shell_trace(runs, events),
        runs.last() == (ShellRun::Exit { code, line }),
    ensures
        events.len() > 0,
        code == 0 ==> (events.last() matches ShellEvent::AgentEnded(Ok(_))) || events.last()
            == ShellEvent::Relaunched(Ok(0i32)),
        events.last() matches ShellEvent::Relaunched(Ok(ended)) ==> 0 <= ended <= 255 ==> code
            == ended,
        events.last() matches ShellEvent::AgentEnded(Ok(_)) ==> code == 0 && line is None,
        events.last() matches ShellEvent::AgentEnded(Err(_)) ==> code != 0 && line is Some,
        events.last() matches ShellEvent::Checked(_) ==> code == 1,
        events.last() matches ShellEvent::Hooked(_) ==> code == 1,
{
    assert(events.len() > 0);
    let n = events.len() - 1;
    assert(shell_step(runs[n], events[n], runs[n + 1]));
}

} // verus!
