//! Laws of a child invocation.

use vstd::prelude::*;

use std::path::PathBuf;

use crate::child::{
    after_bind, after_spawn, after_wait, build_args, captured_text, lossy_text, ChildArg,
    ChildOutcome, ChildRun, Waited,
};
use crate::laws::text::{decimals_read_back, number, trimming_takes_white_space_alone};
use crate::metrics::Metrics;
use crate::platform::{IoError, PlatformError};
use crate::text::{decimal_string, is_white_space, trim};

verus! {

/// The child gets the sample and nothing else: each of its three options before its value, the
/// time as it is written anywhere, the memory as a number that reads back as itself, and the
/// log's path as it is.
pub proof fn children_get_the_sample(
    metrics: Metrics,
    log_file: PathBuf,
    args: Vec<ChildArg>,
    time: String,
    memory: String,
)
    requires
        call_ensures(build_args, (&metrics, &log_file), args),
        call_ensures(Metrics::utc_string, (&metrics,), time),
        call_ensures(decimal_string, (metrics.rss_bytes,), memory),
    ensures
        args@.len() == 6,
        args@[0] matches ChildArg::Text(flag) && flag@ == "--utc"@,
        args@[1] matches ChildArg::Text(text) && text@ == time@,
        args@[2] matches ChildArg::Text(flag) && flag@ == "--rss-bytes"@,
        args@[3] matches ChildArg::Text(text) && text@ == memory@ && number(text@)
            == metrics.rss_bytes,
        args@[4] matches ChildArg::Text(flag) && flag@ == "--log-file"@,
        args@[5] matches ChildArg::Path(path) && path == log_file,
{
    decimals_read_back(metrics.rss_bytes, memory);
}

/// A process that was started is bound next; one that was not is reported with its error, and
/// there is nothing to kill.
pub proof fn started_children_are_bound(spawned: Result<(), IoError>, run: ChildRun)
    requires
        call_ensures(after_spawn, (spawned,), run),
    ensures
        run is Bind <==> spawned is Ok,
        spawned matches Err(err) ==> (run matches ChildRun::Ended { kill, outcome } && !kill
            && outcome == ChildOutcome::SpawnFailed(err)),
{
}

/// A process that is bound is waited for; one that cannot be is killed and reported.
pub proof fn bound_children_are_awaited(bound: Result<(), PlatformError>, run: ChildRun)
    requires
        call_ensures(after_bind, (bound,), run),
    ensures
        run is Wait <==> bound is Ok,
        bound matches Err(err) ==> (run matches ChildRun::Ended { kill, outcome } && kill && outcome
            == ChildOutcome::BindFailed(err)),
{
}

/// What a child wrote is kept without the white space around it and otherwise as it is: text
/// that is valid UTF-8 is what it encodes.
pub proof fn output_is_kept(bytes: Vec<u8>, text: String, written: &str, cut: String)
    requires
        call_ensures(captured_text, (&bytes,), text),
        vstd::utf8::valid_utf8(bytes@) ==> written@ == vstd::utf8::decode_utf8(bytes@),
        !vstd::utf8::valid_utf8(bytes@) ==> written@ == lossy_text(bytes@),
        call_ensures(trim, (written,), cut),
    ensures
        text@ == cut@,
        text@.len() > 0 ==> !is_white_space(text@[0]) && !is_white_space(text@.last()),
{
    trimming_takes_white_space_alone(written, cut);
}

/// After the wait, exactly an exit is a completion, with the child's own code and what it
/// wrote; a process that has not exited is killed, and the reason is kept.
pub proof fn waits_end_as_they_ended(
    waited: Waited,
    run: ChildRun,
    out: String,
    err: String,
)
    requires
        call_ensures(after_wait, (waited,), run),
        waited matches Waited::Exited { stdout, stderr, .. } ==> call_ensures(
            captured_text,
            (&stdout,),
            out,
        ) && call_ensures(captured_text, (&stderr,), err),
    ensures
        run is Ended,
        run->kill <==> !(waited is Exited),
        waited matches Waited::Exited { code, .. } ==> (run->outcome matches ChildOutcome::Completed {
            code: c,
            stdout: o,
            stderr: e,
        } && c == code && o@ == out@ && e@ == err@),
        waited is Elapsed <==> run->outcome is TimedOut,
        waited is Cancelled <==> run->outcome is Cancelled,
        waited matches Waited::Failed(io) ==> run->outcome == ChildOutcome::WaitFailed(io),
{
}

} // verus!
