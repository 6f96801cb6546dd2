//! Laws of rotation: when a log is rotated, what moves where, and what is never dropped.

use vstd::prelude::*;

use std::path::PathBuf;

use crate::laws::text::{decimals_read_back, number};
use crate::paths::{last_dot, last_name, path_parts, sibling_of};
use crate::platform::{IoError, IoErrorKind};
use crate::rotation::laws::{
    a_write_drops_only_the_oldest, after_rotation, after_write, content, held,
    rotation_shifts_generations, rotation_without_generations, writer_tracks_the_open_file,
    LogState, Turn,
};
use crate::rotation::{
    generation_name, rotate, rotate_if_large, rotated_name, settles, GenerationStep, RotatingWriter,
    Rotation, RotationEnd, RotationPolicy, RotationStep, WritePlan,
};
use crate::text::decimal_string;

verus! {

/// While a write fits into the live file, it is appended: no rotation is tried, whatever the
/// size. One that does not fit starts a new file, unless the live file is empty, and a writer
/// that has lost its live file opens it first.
pub proof fn writes_that_fit_are_appended(writer: RotatingWriter, len: u64, plan: WritePlan)
    requires
        call_ensures(RotatingWriter::before_write, (&writer, len), plan),
    ensures
        writer.attached() && writer.size() + len <= writer.policy().max_bytes ==> plan
            == WritePlan::Append,
        writer.attached() && writer.size() == 0 ==> plan == WritePlan::Append,
        writer.attached() && writer.size() > 0 && writer.size() + len > writer.policy().max_bytes
            ==> plan == if writer.policy().keep == 0 {
            WritePlan::Truncate
        } else {
            WritePlan::Rotate
        },
        !writer.attached() ==> plan == WritePlan::Reopen,
{
}

/// Where a write is appended, a shorter one is.
pub proof fn rotation_is_monotonic(
    writer: RotatingWriter,
    len: u64,
    plan: WritePlan,
    shorter: u64,
    other: WritePlan,
)
    requires
        call_ensures(RotatingWriter::before_write, (&writer, len), plan),
        call_ensures(RotatingWriter::before_write, (&writer, shorter), other),
        shorter <= len,
    ensures
        plan == WritePlan::Append ==> other == WritePlan::Append,
{
}

/// While writes fit, no generation is dropped or moved and nothing is lost: the live file
/// grows by the write, and every other file stays as it is.
pub proof fn nothing_is_dropped_while_writes_fit(
    log: LogState,
    policy: RotationPolicy,
    turn: Turn,
    buf: Seq<u8>,
)
    requires
        log.is_sound(policy.keep as nat),
        log.attached,
        log.files[0].len() + buf.len() <= policy.max_bytes,
        log.allows(policy, buf.len(), turn),
    ensures
        log.wrote(policy.keep as nat, turn, buf).files == log.files.insert(0, log.files[0] + buf),
        log.wrote(policy.keep as nat, turn, buf).attached,
        held(log.wrote(policy.keep as nat, turn, buf).files, 1) == held(log.files, 1) + buf,
{
    reveal_with_fuel(held, 2);
    let after = log.wrote(policy.keep as nat, turn, buf);
    assert(held(after.files, 1) =~= held(log.files, 1) + buf);
}

/// A complete rotation leaves the write alone in the live file.
pub proof fn a_rotated_log_starts_with_the_write(
    log: LogState,
    policy: RotationPolicy,
    turn: Turn,
    buf: Seq<u8>,
)
    requires
        log.is_sound(policy.keep as nat),
        log.attached,
        log.files[0].len() > 0,
        log.files[0].len() + buf.len() > policy.max_bytes,
        log.allows(policy, buf.len(), turn),
        turn is Rotated || turn is Truncated,
    ensures
        log.wrote(policy.keep as nat, turn, buf).files[0] == buf,
        policy.keep > 0 ==> turn is Rotated,
        policy.keep == 0 ==> turn is Truncated,
{
    writer_tracks_the_open_file(log, policy, turn, buf);
    a_write_drops_only_the_oldest(log, policy, turn, buf);
    let keep = policy.keep as nat;
    let after = log.wrote(keep, turn, buf);
    let between = log.turned(keep, turn);
    assert(content(between.files, 0).len() == 0);
    assert(after.files[0] =~= buf);
}

/// What a write does to the files of a log, newest first, when every rotation succeeds. A write
/// that fits, or finds an empty file, is put behind what the live file holds. Any other becomes
/// the live file, every file moves one place back, and those beyond the kept ones go.
pub proof fn files_move_back_by_one(files: Seq<Seq<u8>>, policy: RotationPolicy, buf: Seq<u8>)
    requires
        files.len() > 0,
    ensures
        ({
            let after = after_write(files, policy, buf);
            if files[0].len() == 0 || files[0].len() + buf.len() <= policy.max_bytes {
                &&& after.len() == files.len()
                &&& after[0] == files[0] + buf
                &&& forall|i: int| 1 <= i < files.len() ==> after[i] == #[trigger] files[i]
            } else {
                &&& after.len() == if files.len() <= policy.keep {
                    files.len() as int + 1
                } else {
                    policy.keep as int + 1
                }
                &&& after[0] == buf
                &&& forall|i: int| 1 <= i < after.len() ==> #[trigger] after[i] == files[i - 1]
            }
        }),
{
}

/// What a whole rotation does to the files of a log, by generation: each becomes the next one,
/// the live file the first, the last that is kept goes, and those beyond are left alone. Where
/// there is no live file, nothing changes.
pub proof fn generations_move_up_by_one(files: Map<nat, Seq<u8>>, keep: nat, g: nat)
    ensures
        !files.dom().contains(0) ==> after_rotation(files, keep) == files,
        files.dom().contains(0) ==> {
            let after = after_rotation(files, keep);
            &&& g == 0 ==> !after.dom().contains(g)
            &&& 1 <= g <= keep ==> (after.dom().contains(g) <==> files.dom().contains(
                (g - 1) as nat,
            )) && (after.dom().contains(g) ==> after[g] == files[(g - 1) as nat])
            &&& g > keep && g > 0 ==> (after.dom().contains(g) <==> files.dom().contains(g)) && (
            after.dom().contains(g) ==> after[g] == files[g])
        },
{
    if keep == 0 {
        rotation_without_generations(files);
    } else {
        rotation_shifts_generations(files, keep);
    }
}

proof fn lemma_dot(stem: Seq<char>, ext: Seq<char>)
    requires
        !ext.contains('.'),
    ensures
        last_dot(stem + seq!['.'] + ext) == stem.len(),
    decreases ext.len(),
{
    let name = stem + seq!['.'] + ext;
    if ext.len() > 0 {
        let shorter = ext.drop_last();
        assert(ext.contains(ext.last()));
        assert forall|i: int| 0 <= i < shorter.len() implies shorter[i] != '.' by {
            assert(ext.contains(ext[i]));
        }
        lemma_dot(stem, shorter);
        assert(name.drop_last() =~= stem + seq!['.'] + shorter);
        assert(name.last() == ext.last());
    } else {
        assert(name.last() == '.');
    }
}

proof fn lemma_no_dot(name: Seq<char>)
    requires
        !name.contains('.'),
    ensures
        last_dot(name) == -1,
    decreases name.len(),
{
    if name.len() > 0 {
        let shorter = name.drop_last();
        assert(name.contains(name.last()));
        assert forall|i: int| 0 <= i < shorter.len() implies shorter[i] != '.' by {
            assert(name.contains(name[i]));
        }
        lemma_no_dot(shorter);
    }
}

/// The index stands between the stem and the extension of a generation's name, and reads back
/// as itself; a name without an extension has it at the end, and one that begins with its only
/// dot has none.
pub proof fn generation_names_hold_their_index(
    live: PathBuf,
    index: u32,
    rotated: PathBuf,
    stem: Seq<char>,
    ext: Seq<char>,
    digits: String,
)
    requires
        call_ensures(rotated_name, (&live, index), rotated),
        call_ensures(decimal_string, (index as u64,), digits),
        stem.len() > 0,
        !ext.contains('.'),
    ensures
        number(digits@) == index,
        last_name(path_parts(live)) == Some(stem + seq!['.'] + ext) ==> rotated == sibling_of(
            live,
            stem + seq!['.'] + digits@ + seq!['.'] + ext,
        ),
        last_name(path_parts(live)) == Some(stem) && !stem.contains('.') ==> rotated == sibling_of(
            live,
            stem + seq!['.'] + digits@,
        ),
        last_name(path_parts(live)) == Some(seq!['.'] + ext) && ext.len() > 0
            ==> rotated == sibling_of(live, seq!['.'] + ext + seq!['.'] + digits@),
{
    decimals_read_back(index as u64, digits);
    let parts = path_parts(live);
    if last_name(parts) == Some(stem + seq!['.'] + ext) {
        lemma_dot(stem, ext);
        let name = stem + seq!['.'] + ext;
        assert(name.take(stem.len() as int) =~= stem);
        assert(name.skip(stem.len() as int + 1) =~= ext);
        assert(generation_name(parts, index as nat) =~= stem + seq!['.'] + digits@ + seq!['.']
            + ext);
    }
    if last_name(parts) == Some(seq!['.'] + ext) && ext.len() > 0 {
        let none = Seq::<char>::empty();
        lemma_dot(none, ext);
        assert(none + seq!['.'] + ext =~= seq!['.'] + ext);
        assert(generation_name(parts, index as nat) =~= seq!['.'] + ext + seq!['.'] + digits@);
    }
    if last_name(parts) == Some(stem) && !stem.contains('.') {
        lemma_no_dot(stem);
        assert(generation_name(parts, index as nat) =~= stem + seq!['.'] + digits@);
    }
}

/// The file operations of a rotation, in order: delete the last generation that is kept, move
/// each of the others up starting with the oldest, and rename the live file to the first. With
/// nothing to keep, delete the live file.
pub proof fn rotations_go_from_the_oldest_to_the_live_file(
    rotation: Rotation,
    step: Option<RotationStep>,
)
    requires
        call_ensures(Rotation::next_step, (&rotation,), step),
    ensures
        ({
            let live = rotation.live();
            let keep = rotation.keep();
            let at = rotation.at();
            let name = |g: int| sibling_of(live, generation_name(path_parts(live), g as nat));
            &&& at > keep <==> step is None
            &&& keep == 0 && at == 0 ==> step == Some(RotationStep::Delete { path: live })
            &&& keep > 0 && at == 0 ==> step == Some(
                RotationStep::Delete { path: name(keep as int) },
            )
            &&& 0 < at < keep ==> step == Some(
                RotationStep::Shift { from: name(keep - at), to: name(keep - at + 1) },
            )
            &&& 0 < at && at == keep ==> step == Some(
                RotationStep::Retire { from: live, to: name(1) },
            )
        }),
{
}

/// A step counts as done when it succeeded, and where a file to delete or to retire was missing;
/// a file to move that has vanished, and any other failure, stops the rotation.
pub proof fn only_missing_files_are_passed_over(
    step: Option<GenerationStep>,
    result: Result<(), IoError>,
)
    ensures
        result is Ok ==> settles(step, result),
        result matches Err(err) ==> err.kind != IoErrorKind::NotFound ==> !settles(step, result),
        result matches Err(err) ==> err.kind == IoErrorKind::NotFound ==> (settles(step, result)
            <==> !(step matches Some(GenerationStep::Shift(_)))),
{
}

/// A rotation begins where the live file was found, at its first step; without a live file
/// there is none, and any other answer is an error.
pub proof fn only_an_existing_file_is_rotated(
    path: PathBuf,
    keep: u32,
    live: Result<(), IoError>,
    decision: Result<Option<Rotation>, IoError>,
)
    requires
        call_ensures(rotate, (&path, keep, live), decision),
    ensures
        live is Ok <==> decision matches Ok(Some(_)),
        decision matches Ok(Some(r)) ==> r.live() == path && r.keep() == keep && r.at() == 0,
        decision matches Ok(None) ==> live matches Err(err) && err.kind == IoErrorKind::NotFound,
        decision matches Err(err) ==> live == Err::<(), IoError>(err) && err.kind
            != IoErrorKind::NotFound,
{
}

/// A log is rotated exactly when its size has reached the limit.
pub proof fn only_a_large_file_is_rotated(
    path: PathBuf,
    size: Result<u64, IoError>,
    policy: RotationPolicy,
    decision: Result<Option<Rotation>, IoError>,
)
    requires
        call_ensures(rotate_if_large, (&path, size, &policy), decision),
    ensures
        decision matches Ok(Some(r)) ==> r.live() == path && r.keep() == policy.keep && r.at() == 0,
        size matches Ok(bytes) ==> decision is Ok && (bytes >= policy.max_bytes <==> decision
            matches Ok(Some(_))),
        size matches Err(err) ==> !(decision matches Ok(Some(_))) && (err.kind
            == IoErrorKind::NotFound <==> decision is Ok),
        decision matches Err(err) ==> size == Err::<u64, IoError>(err),
{
}

/// A writer's rotation is that of its live file by its policy, from the step at which the last
/// attempt stopped.
pub proof fn writers_go_on_where_they_stopped(
    writer: RotatingWriter,
    live: Result<(), IoError>,
    decision: Result<Option<Rotation>, IoError>,
    done: u64,
)
    requires
        call_ensures(RotatingWriter::rotation, (&writer, live), decision),
        call_ensures(RotatingWriter::steps_done, (&writer,), done),
    ensures
        live is Ok <==> decision matches Ok(Some(_)),
        decision matches Ok(Some(r)) ==> r.live() == writer.path() && r.keep()
            == writer.policy().keep && r.at() == done,
        decision matches Ok(None) ==> live matches Err(err) && err.kind == IoErrorKind::NotFound,
        decision matches Err(err) ==> live == Err::<(), IoError>(err),
{
}

/// A new writer counts what the live file holds and has nothing behind it.
pub proof fn writers_open_with_the_size_they_find(
    path: PathBuf,
    policy: RotationPolicy,
    size: u64,
    writer: RotatingWriter,
    counted: u64,
)
    requires
        call_ensures(RotatingWriter::open, (&path, policy, size), writer),
        call_ensures(RotatingWriter::live_size, (&writer,), counted),
    ensures
        counted == size,
        writer.path() == path && writer.policy() == policy && writer.attached() && writer.done()
            == 0,
{
}

/// What a writer knows after an attempt: only a complete one empties the count, one that could
/// not open the live file leaves it for the next write, and one that stopped is gone on with.
pub proof fn attempts_are_remembered(writer: &mut RotatingWriter, end: RotationEnd)
    requires
        call_ensures(RotatingWriter::rotation_ended, (writer, end), ()),
    ensures
        final(writer).path() == old(writer).path(),
        final(writer).policy() == old(writer).policy(),
        final(writer).size() == if end == RotationEnd::Complete {
            0
        } else {
            old(writer).size()
        },
        final(writer).attached() <==> end == RotationEnd::Complete || (old(writer).attached()
            && end != RotationEnd::Detached),
        end matches RotationEnd::Stopped { done } ==> final(writer).done() == done,
        end == RotationEnd::Detached || end == RotationEnd::Complete ==> final(writer).done() == 0,
{
}

/// A write adds its length to the count and changes nothing else.
pub proof fn writes_are_counted(writer: &mut RotatingWriter, len: u64)
    requires
        call_ensures(RotatingWriter::wrote, (writer, len), ()),
    ensures
        final(writer).size() == old(writer).size() + len,
        final(writer).path() == old(writer).path(),
        final(writer).policy() == old(writer).policy(),
        final(writer).attached() == old(writer).attached(),
        final(writer).done() == old(writer).done(),
{
}

/// A rotation takes one step for every operation that succeeded, and for a file to delete or to
/// retire that was missing. Any other failure is handed on, and the rotation stays where it is.
pub proof fn rotations_take_one_step_at_a_time(
    rotation: &mut Rotation,
    result: Result<(), IoError>,
    outcome: Result<(), IoError>,
)
    requires
        call_ensures(Rotation::settle, (rotation, result), outcome),
    ensures
        final(rotation).live() == old(rotation).live(),
        final(rotation).keep() == old(rotation).keep(),
        result is Ok ==> outcome is Ok,
        result matches Err(err) ==> (outcome is Ok <==> err.kind == IoErrorKind::NotFound && !(0
            < old(rotation).at() < old(rotation).keep())),
        outcome is Err ==> outcome == result,
        outcome is Ok && old(rotation).at() <= old(rotation).keep() ==> final(rotation).at()
            == old(rotation).at() + 1,
        outcome is Err || old(rotation).at() > old(rotation).keep() ==> final(rotation).at()
            == old(rotation).at(),
{
}

/// The steps that a rotation or a writer tells are those that it has taken.
pub proof fn steps_are_told(rotation: Rotation, taken: u64, writer: RotatingWriter, left: u64)
    requires
        call_ensures(Rotation::steps_done, (&rotation,), taken),
        call_ensures(RotatingWriter::steps_done, (&writer,), left),
    ensures
        taken == rotation.at(),
        left == writer.done(),
{
}

} // verus!
