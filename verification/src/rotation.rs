//! Size-based log rotation with a bounded number of kept files.
//!
//! The live file keeps its name (`agent.log`, `child.log`); on rotation it is renamed to
//! `<stem>.1.log`, older generations shift up by one, and the one past `keep` is deleted. As
//! long as every rotation succeeds and no single write is larger than `max_bytes`, a log never
//! occupies more than `(keep + 1) * max_bytes` on disk. A rotation that fails, however often,
//! loses nothing but the generation past `keep`: writing goes on into the file that is open,
//! and the next attempt goes on at the step that failed. A rename preserves the file's
//! permissions, so rotated generations stay as locked as the live file was.

use vstd::prelude::*;

use std::path::PathBuf;

use crate::paths;
use crate::paths::{
    begins_with_drive, ends_in, is_name_beside, is_plain_beside, is_settled_list, last_dot,
    last_extension, last_name, last_stem, path_parts, path_text, shows_between, shows_name,
    sibling_of, takes_file_name, with_name, PathPart,
};
use crate::platform::{IoError, IoErrorKind};
use crate::text::{decimal, decimal_string, lemma_radix_digits, lemma_radix_injective};

pub mod laws;

verus! {

/// When to rotate and how many rotated generations to keep.
#[derive(Debug, Clone, Copy, PartialEq, Eq)]
pub struct RotationPolicy {
    /// Rotate before a write would take the live file past this size.
    pub max_bytes: u64,
    /// Rotated generations to keep (`<stem>.1.log` … `<stem>.<keep>.log`).
    pub keep: u32,
}

/// The file name of generation `index` of a log whose path has the given components.
pub open spec fn generation_name(parts: Seq<PathPart>, index: nat) -> Seq<char> {
    let stem = match last_stem(parts) {
        Some(stem) => stem,
        None => Seq::empty(),
    };
    match last_extension(parts) {
        Some(ext) => stem + seq!['.'] + decimal(index) + seq!['.'] + ext,
        None => stem + seq!['.'] + decimal(index),
    }
}

/// `path` is generation `index` of the log `live`: its sibling with the index put in front
/// of the extension, and another path than `live`. What that is where the name is not a single
/// component depends on the platform.
pub open spec fn is_generation(path: PathBuf, live: PathBuf, index: nat) -> bool {
    let own = last_name(path_parts(live));
    let name = generation_name(path_parts(live), index);
    &&& path == sibling_of(live, name)
    &&& takes_file_name(live, name) ==> path_parts(path) == with_name(path_parts(live), name)
    &&& is_name_beside(own, name) ==> ends_in(path_text(path), name)
    &&& own matches Some(n) ==> !n.contains('/') ==> path != live
}

/// `dir/agent.log` with index 3 is `dir/agent.3.log`; a path without an extension gets
/// the index appended (`dir/agent.3`).
pub fn rotated_name(path: &PathBuf, index: u32) -> (rotated: PathBuf)
    ensures
        is_generation(rotated, *path, index as nat),
{
    let mut name = match paths::file_stem(path) {
        Some(stem) => stem,
        None => String::new(),
    };
    name.push('.');
    name.append(decimal_string(index as u64).as_str());
    match paths::extension(path) {
        Some(ext) => {
            name.push('.');
            name.append(ext.as_str());
        },
        None => {},
    }
    proof {
        assert(name@ == generation_name(path_parts(*path), index as nat));
    }
    let rotated = paths::with_file_name(path, name.as_str());
    proof {
        let parts = path_parts(*path);
        if last_name(parts) is Some && !last_name(parts)->0.contains('/') && rotated == *path {
            lemma_generation_is_a_name(parts, index as nat);
            lemma_live_shows_its_own_name(parts, index as nat, path_text(*path));
        }
    }
    rotated
}

proof fn lemma_last_dot(name: Seq<char>)
    ensures
        -1 <= last_dot(name) < name.len() || (last_dot(name) == -1 && name.len() == 0),
        last_dot(name) >= 0 ==> name[last_dot(name)] == '.',
    decreases name.len(),
{
    if name.len() > 0 && name.last() != '.' {
        lemma_last_dot(name.drop_last());
    }
}

/// No two generations of a log share a file name, and none has the live file's name.
pub proof fn generations_are_distinct(parts: Seq<PathPart>, i: nat, j: nat)
    ensures
        i != j ==> generation_name(parts, i) != generation_name(parts, j),
        last_name(parts) != Some(generation_name(parts, i)),
{
    let stem = match last_stem(parts) {
        Some(stem) => stem,
        None => Seq::empty(),
    };
    let a = generation_name(parts, i);
    let b = generation_name(parts, j);
    if a == b {
        assert(decimal(i).len() == decimal(j).len()) by {
            match last_extension(parts) {
                Some(ext) => {
                    assert(a.len() == stem.len() + decimal(i).len() + ext.len() + 2);
                    assert(b.len() == stem.len() + decimal(j).len() + ext.len() + 2);
                },
                None => {
                    assert(a.len() == stem.len() + decimal(i).len() + 1);
                    assert(b.len() == stem.len() + decimal(j).len() + 1);
                },
            }
        }
        let start = stem.len() as int + 1;
        assert(decimal(i) == a.subrange(start, start + decimal(i).len()));
        assert(decimal(j) == b.subrange(start, start + decimal(j).len()));
        lemma_radix_injective(i, j, 10);
    }
    if last_name(parts) is Some {
        let name = last_name(parts)->0;
        lemma_last_dot(name);
        assert(a.len() > name.len());
    }
}

proof fn lemma_generation_is_a_name(parts: Seq<PathPart>, index: nat)
    requires
        last_name(parts) matches Some(own) && own.len() > 0 && !own.contains('/'),
    ensures
        is_name_beside(last_name(parts), generation_name(parts, index)),
        !begins_with_drive(last_name(parts)->0) ==> !begins_with_drive(
            generation_name(parts, index),
        ),
{
    let own = last_name(parts)->0;
    let name = generation_name(parts, index);
    let stem = last_stem(parts)->0;
    lemma_last_dot(own);
    lemma_radix_digits(index, 10);
    assert(stem.len() > 0);
    assert forall|i: int| 0 <= i < own.len() implies own[i] != '/' by {
        assert(own.contains(own[i]));
    }
    assert forall|i: int| 0 <= i < name.len() implies name[i] != '/' && (name[i] == '\\'
        ==> own.contains('\\')) by {
        let behind = stem.len() + 1 + decimal(index).len();
        if i < stem.len() {
            assert(name[i] == own[i]);
        } else if i == stem.len() {
        } else if i < behind {
            assert(name[i] == decimal(index)[i - stem.len() - 1]);
        } else {
            let ext = last_extension(parts)->0;
            if i > behind {
                assert(name[i] == ext[i - behind - 1]);
                assert(ext[i - behind - 1] == own[last_dot(own) + 1 + (i - behind - 1)]);
            }
        }
    }
    if name.contains('\\') {
        let i = name.index_of('\\');
        assert(name[i] == '\\');
    }
    assert(name[0] == own[0]);
    if stem.len() > 1 {
        assert(name[1] == own[1]);
    } else {
        assert(name[1] == '.');
    }
    assert(name.len() > 2);
}

/// What follows the index in a generation's name, a dot first.
spec fn name_end(parts: Seq<PathPart>) -> Seq<char> {
    match last_extension(parts) {
        Some(ext) => seq!['.'] + ext,
        None => Seq::empty(),
    }
}

proof fn lemma_name_pieces(parts: Seq<PathPart>, index: nat)
    requires
        last_name(parts) is Some,
    ensures
        generation_name(parts, index) == last_stem(parts)->0 + (seq!['.'] + decimal(index))
            + name_end(parts),
        last_name(parts)->0 == last_stem(parts)->0 + name_end(parts),
{
    let own = last_name(parts)->0;
    lemma_last_dot(own);
    assert(generation_name(parts, index) =~= last_stem(parts)->0 + (seq!['.'] + decimal(index))
        + name_end(parts));
    if last_dot(own) > 0 {
        assert(own =~= own.take(last_dot(own)) + (seq!['.'] + own.skip(last_dot(own) + 1)));
    } else {
        assert(own =~= own + Seq::<char>::empty());
    }
}

/// A text that ends in both `stem` and, behind it again, `more` is made of nothing but what
/// `more` is made of, at every place of `stem`.
proof fn lemma_repeats(stem: Seq<char>, more: Seq<char>, k: int)
    requires
        more.len() > 0,
        ends_in(stem + more, stem),
        0 <= k < stem.len(),
    ensures
        more.contains(stem[k]),
    decreases stem.len() - k,
{
    let all = stem + more;
    let next = k + more.len();
    assert(all.skip(all.len() - stem.len())[k] == all[next]);
    if next < stem.len() {
        lemma_repeats(stem, more, next);
    } else {
        assert(all[next] == more[next - stem.len()]);
    }
}

/// A text that shows the live file's name does not end in the name of a generation.
#[verifier::rlimit(40)]
proof fn lemma_live_shows_its_own_name(parts: Seq<PathPart>, index: nat, text: Seq<char>)
    requires
        last_name(parts) matches Some(own) && !own.contains('/') && shows_name(text, own),
        is_name_beside(last_name(parts), generation_name(parts, index)),
    ensures
        !ends_in(text, generation_name(parts, index)),
{
    if ends_in(text, generation_name(parts, index)) {
        let own = last_name(parts)->0;
        let name = generation_name(parts, index);
        let stem = last_stem(parts)->0;
        let mark = seq!['.'] + decimal(index);
        let end = name_end(parts);
        lemma_name_pieces(parts, index);
        lemma_radix_digits(index, 10);
        lemma_last_dot(own);
        let (front, tail) = choose|front: Seq<char>, tail: Seq<char>| #[trigger]
            shows_between(text, front, own, tail);
        let start = text.len() - name.len();
        assert forall|i: int| 0 <= i < name.len() implies name[i] == #[trigger] text[start + i] by {
            assert(text.skip(start)[i] == text[start + i]);
        }
        let digit_at = stem.len() + 1;
        assert(name[digit_at as int] == decimal(index)[0]);
        if tail.len() > 0 {
            // The tail begins with a separator, which no generation's name holds, and has no digit.
            let at = front.len() + own.len();
            assert(text[at as int] == tail[0]);
            if start <= at {
                assert(name[at - start] == tail[0]);
                assert(name.contains(name[at - start]));
            } else {
                assert(text[start + digit_at] == tail[start + digit_at - at]);
            }
        } else {
            let extra = name.len() - own.len();
            assert(text =~= front + own);
            assert(name =~= name.take(extra as int) + own) by {
                assert forall|i: int| 0 <= i < own.len() implies own[i] == name[extra + i] by {
                    assert(name[extra + i] == text[start + extra + i]);
                    assert(text[front.len() + i] == own[i]);
                }
            }
            // The front ends in what the generation's name has in front of the live file's.
            assert(name[extra - 1] == text[start + extra - 1]);
            assert(text[start + extra - 1] == front.last());
            assert(name.contains(name[extra - 1]));
            assert(!(front.last() == '/'));
            // So the front is a drive, and the generation's name begins with its letter.
            assert(ends_in(stem + mark, stem)) by {
                let both = stem + mark;
                assert forall|i: int| 0 <= i < stem.len() implies both.skip(
                    both.len() - stem.len(),
                )[i] == stem[i] by {
                    assert(both[both.len() - stem.len() + i] == name[extra + i]);
                    assert(own[i] == stem[i]);
                }
                assert(both.skip(both.len() - stem.len()) =~= stem);
            }
            lemma_repeats(stem, mark, 0);
            assert(extra == mark.len());
            assert(front.len() == 2 ==> extra == 2 && name[0] == text[start] && start == 0);
            let k = mark.index_of(stem[0]);
            assert(mark[k] == stem[0]);
            if k > 0 {
                assert(mark[k] == decimal(index)[k - 1]);
            }
            assert(name[0] == stem[0]);
        }
    }
}

/// A text ends in the name of one generation at most.
proof fn lemma_one_generation(parts: Seq<PathPart>, i: nat, j: nat, text: Seq<char>)
    requires
        last_name(parts) is Some,
        i != j,
        ends_in(text, generation_name(parts, i)),
        decimal(i).len() <= decimal(j).len(),
    ensures
        !ends_in(text, generation_name(parts, j)),
{
    let a = generation_name(parts, i);
    let b = generation_name(parts, j);
    let stem = last_stem(parts)->0;
    lemma_name_pieces(parts, i);
    lemma_name_pieces(parts, j);
    lemma_radix_digits(j, 10);
    generations_are_distinct(parts, i, j);
    if ends_in(text, b) && decimal(i).len() < decimal(j).len() {
        // The dot in front of the shorter index stands where the longer one has a digit.
        let dot = text.len() - a.len() + stem.len();
        assert(text.skip(text.len() - a.len())[stem.len() as int] == text[dot as int]);
        assert(a[stem.len() as int] == '.');
        let place = dot - (text.len() - b.len());
        assert(text.skip(text.len() - b.len())[place] == text[dot as int]);
        assert(b[place] == decimal(j)[place - stem.len() - 1]);
    }
}

/// Where the live file has a name, its generations are other files than it and than each
/// other: no two have the same path, and none has the live file's. Their names are one
/// component each, in place of the live file's, but for a name that begins like a drive: what
/// is beside such a file depends on the platform. (A name can hold a slash only behind a
/// verbatim prefix.)
pub proof fn generation_paths_are_distinct(live: PathBuf, a: PathBuf, b: PathBuf, i: nat, j: nat)
    requires
        last_name(path_parts(live)) matches Some(name) && name.len() > 0 && !name.contains('/'),
        is_generation(a, live, i),
        is_generation(b, live, j),
    ensures
        a != live,
        i != j ==> a != b,
        is_plain_beside(last_name(path_parts(live)), last_name(path_parts(live))->0)
            && is_settled_list(path_parts(live)) ==> {
            &&& path_parts(a) == path_parts(live).drop_last().push(
                PathPart::Name(generation_name(path_parts(live), i)),
            )
            &&& path_parts(a) != path_parts(live)
            &&& i != j ==> path_parts(a) != path_parts(b)
        },
{
    let parts = path_parts(live);
    lemma_generation_is_a_name(parts, i);
    lemma_generation_is_a_name(parts, j);
    generations_are_distinct(parts, i, j);
    if i != j && a == b {
        if decimal(i).len() <= decimal(j).len() {
            lemma_one_generation(parts, i, j, path_text(a));
        } else {
            lemma_one_generation(parts, j, i, path_text(a));
        }
    }
    if is_plain_beside(last_name(parts), last_name(parts)->0) && is_settled_list(parts) {
        assert(path_parts(a).last() == PathPart::Name(generation_name(parts, i)));
        assert(path_parts(b).last() == PathPart::Name(generation_name(parts, j)));
    }
}

/// One step of a rotation, by generation number; the live file is generation 0.
pub enum GenerationStep {
    /// Delete this generation if it exists.
    Delete(nat),
    /// Rename this generation to the next one if it exists.
    Shift(nat),
    /// Rename the live file to generation 1 if it exists.
    Retire,
}

/// Step number `at` of a rotation that keeps `keep` generations: the oldest generation goes,
/// the others move up starting with the oldest, and the live file becomes the first. With
/// nothing to keep, the live file is deleted.
pub open spec fn generation_step(keep: nat, at: nat) -> Option<GenerationStep> {
    if keep == 0 {
        if at == 0 {
            Some(GenerationStep::Delete(0))
        } else {
            None
        }
    } else if at == 0 {
        Some(GenerationStep::Delete(keep))
    } else if at < keep {
        Some(GenerationStep::Shift((keep - at) as nat))
    } else if at == keep {
        Some(GenerationStep::Retire)
    } else {
        None
    }
}

/// One file operation of a rotation.
#[derive(Debug, PartialEq, Eq)]
pub enum RotationStep {
    /// Delete the file; a missing one is not an error.
    Delete {
        /// The file.
        path: PathBuf,
    },
    /// Rename the file if it exists.
    Shift {
        /// The present name.
        from: PathBuf,
        /// The next generation's name.
        to: PathBuf,
    },
    /// Rename the live file; a missing one is not an error.
    Retire {
        /// The live file.
        from: PathBuf,
        /// The first generation's name.
        to: PathBuf,
    },
}

/// `path` is generation `index` of `live`, which is its own generation 0.
pub open spec fn stands_for(path: PathBuf, live: PathBuf, index: nat) -> bool {
    if index == 0 {
        path == live
    } else {
        is_generation(path, live, index)
    }
}

/// The file operation `step` does to the files of the log `live` what `model` says.
pub open spec fn carries_out(step: RotationStep, live: PathBuf, model: GenerationStep) -> bool {
    match model {
        GenerationStep::Delete(index) => step matches RotationStep::Delete { path } && stands_for(
            path,
            live,
            index,
        ),
        GenerationStep::Shift(index) => step matches RotationStep::Shift { from, to }
            && stands_for(from, live, index) && stands_for(to, live, index + 1),
        GenerationStep::Retire => step matches RotationStep::Retire { from, to } && stands_for(
            from,
            live,
            0,
        ) && stands_for(to, live, 1),
    }
}

/// A rotation in progress: it hands out one file operation after the other.
#[derive(Debug)]
pub struct Rotation {
    live: PathBuf,
    keep: u32,
    at: u64,
}

impl Rotation {
    /// The live file's path.
    pub closed spec fn live(self) -> PathBuf {
        self.live
    }

    /// How many generations are kept.
    pub closed spec fn keep(self) -> nat {
        self.keep as nat
    }

    /// The number of the next step.
    pub closed spec fn at(self) -> nat {
        self.at as nat
    }

    /// A rotation of `live` that has not taken a step yet.
    pub open spec fn starts(self, live: PathBuf, keep: nat) -> bool {
        self.goes_on(live, keep, 0)
    }

    /// A rotation of `live` with `done` steps behind it.
    pub open spec fn goes_on(self, live: PathBuf, keep: nat, done: nat) -> bool {
        self.live() == live && self.keep() == keep && self.at() == done
    }

    /// The next file operation, or `None` when the rotation is complete.
    pub fn next_step(&self) -> (step: Option<RotationStep>)
        ensures
            match generation_step(self.keep(), self.at()) {
                Some(model) => step matches Some(s) && carries_out(s, self.live(), model),
                None => step is None,
            },
    {
        let keep = self.keep as u64;
        let at = self.at;
        if at > keep {
            None
        } else if keep == 0 {
            Some(RotationStep::Delete { path: self.live.clone() })
        } else if at == 0 {
            Some(RotationStep::Delete { path: rotated_name(&self.live, self.keep) })
        } else if at < keep {
            let index: u32 = (keep - at) as u32;
            Some(
                RotationStep::Shift {
                    from: rotated_name(&self.live, index),
                    to: rotated_name(&self.live, index + 1),
                },
            )
        } else {
            Some(
                RotationStep::Retire { from: self.live.clone(), to: rotated_name(&self.live, 1) },
            )
        }
    }

    /// Take the result of the next file operation: a file that is not there needs no deleting
    /// and no retiring, and every other failure ends the rotation where it stands.
    pub fn settle(&mut self, result: Result<(), IoError>) -> (outcome: Result<(), IoError>)
        ensures
            final(self).live() == old(self).live(),
            final(self).keep() == old(self).keep(),
            settles(generation_step(old(self).keep(), old(self).at()), result) ==> outcome is Ok,
            !settles(generation_step(old(self).keep(), old(self).at()), result) ==> outcome
                == result,
            final(self).at() == old(self).at() + if generation_step(
                old(self).keep(),
                old(self).at(),
            ) is Some && outcome is Ok {
                1int
            } else {
                0int
            },
    {
        let keep = self.keep as u64;
        let shift = 0 < self.at && self.at < keep;
        match result {
            Ok(_) => {},
            Err(err) => {
                if shift || !err.is_not_found() {
                    return Err(err);
                }
            },
        }
        if self.at <= keep {
            self.at = self.at + 1;
        }
        Ok(())
    }

    /// How many steps are behind it.
    pub fn steps_done(&self) -> (done: u64)
        ensures
            done == self.at(),
    {
        self.at
    }
}

/// A step counts as done: the file operation succeeded, or there was no file to delete or to
/// retire.
pub open spec fn settles(step: Option<GenerationStep>, result: Result<(), IoError>) -> bool {
    match result {
        Ok(_) => true,
        Err(err) => err.kind == IoErrorKind::NotFound && !(step matches Some(
            GenerationStep::Shift(_),
        )),
    }
}

/// Start shifting the generations of `path` up by one; `live` is the result of looking for
/// the live file. A missing one is not an error: there is nothing to rotate, and every
/// generation stays where it is. Any other failure is handed on. The caller creates the next
/// live file.
pub fn rotate(path: &PathBuf, keep: u32, live: Result<(), IoError>) -> (decision: Result<
    Option<Rotation>,
    IoError,
>)
    ensures
        match live {
            Ok(_) => decision matches Ok(Some(rotation)) && rotation.starts(*path, keep as nat),
            Err(err) => if err.kind == IoErrorKind::NotFound {
                decision matches Ok(None)
            } else {
                decision == Err::<Option<Rotation>, IoError>(err)
            },
        },
{
    match live {
        Ok(_) => Ok(Some(Rotation { live: path.clone(), keep, at: 0 })),
        Err(err) => {
            if err.is_not_found() {
                Ok(None)
            } else {
                Err(err)
            }
        },
    }
}

/// Start a rotation of `path` if its `size` has reached the policy's limit. A file that does
/// not exist needs none; any other failure to read the size is handed on.
pub fn rotate_if_large(
    path: &PathBuf,
    size: Result<u64, IoError>,
    policy: &RotationPolicy,
) -> (decision: Result<Option<Rotation>, IoError>)
    ensures
        match size {
            Ok(size) => if size >= policy.max_bytes {
                decision matches Ok(Some(rotation)) && rotation.starts(*path, policy.keep as nat)
            } else {
                decision matches Ok(None)
            },
            Err(err) => if err.kind == IoErrorKind::NotFound {
                decision matches Ok(None)
            } else {
                decision == Err::<Option<Rotation>, IoError>(err)
            },
        },
{
    match size {
        Ok(size) => {
            if size < policy.max_bytes {
                Ok(None)
            } else {
                rotate(path, policy.keep, Ok(()))
            }
        },
        Err(err) => rotate(path, policy.keep, Err(err)),
    }
}

/// A live file of `size` bytes is rotated before a write of `len` more when it holds
/// something and the write would take it past `max_bytes`.
pub open spec fn must_rotate(size: nat, len: nat, max_bytes: nat) -> bool {
    size > 0 && size + len > max_bytes
}

/// What a writer does before it writes.
#[derive(Debug, Clone, Copy, PartialEq, Eq)]
pub enum WritePlan {
    /// Nothing: the write goes behind what the open file holds.
    Append,
    /// Try a rotation.
    Rotate,
    /// Try to empty the live file, which has no generation to become.
    Truncate,
    /// Try to open the live file, which an earlier rotation left unopened.
    Reopen,
}

/// The plan for a write of `len` bytes when the open file holds `size`; `attached` says that
/// the open file is the live one.
pub open spec fn write_plan(
    attached: bool,
    size: nat,
    len: nat,
    policy: RotationPolicy,
) -> WritePlan {
    if !attached {
        WritePlan::Reopen
    } else if !must_rotate(size, len, policy.max_bytes as nat) {
        WritePlan::Append
    } else if policy.keep > 0 {
        WritePlan::Rotate
    } else {
        WritePlan::Truncate
    }
}

/// How what a [`WritePlan`] asked for ended.
#[derive(Debug, Clone, Copy, PartialEq, Eq)]
pub enum RotationEnd {
    /// A file operation failed; the open file is still the live one.
    Stopped {
        /// How many steps of the rotation are done.
        done: u64,
    },
    /// The live file could not be opened; the open file is the one that was renamed.
    Detached,
    /// The live file is empty and open.
    Complete,
}

/// The bookkeeping of an append-only writer that rotates its live file by size. Every
/// rotation is best-effort: if the rename or the reopen fails, writing continues into the
/// current file rather than losing lines, and the next write tries again. It goes on where
/// the last attempt stopped: the generations that were moved already are not moved again, and
/// where only the reopen failed, that alone is tried.
#[derive(Debug)]
pub struct RotatingWriter {
    path: PathBuf,
    policy: RotationPolicy,
    size: u64,
    attached: bool,
    done: u64,
}

impl RotatingWriter {
    /// The live file's path.
    pub closed spec fn path(self) -> PathBuf {
        self.path
    }

    /// The policy.
    pub closed spec fn policy(self) -> RotationPolicy {
        self.policy
    }

    /// The open file's size in bytes.
    pub closed spec fn size(self) -> nat {
        self.size as nat
    }

    /// The open file is the live one.
    pub closed spec fn attached(self) -> bool {
        self.attached
    }

    /// How many steps of a rotation that failed are done.
    pub closed spec fn done(self) -> nat {
        self.done as nat
    }

    /// A writer for the live file `path`, which holds `size` bytes.
    pub fn open(path: &PathBuf, policy: RotationPolicy, size: u64) -> (writer: Self)
        ensures
            writer.path() == *path,
            writer.policy() == policy,
            writer.size() == size,
            writer.attached(),
            writer.done() == 0,
    {
        RotatingWriter { path: path.clone(), policy, size, attached: true, done: 0 }
    }

    /// What has to be tried before `len` bytes are written.
    pub fn before_write(&self, len: u64) -> (plan: WritePlan)
        ensures
            plan == write_plan(self.attached(), self.size(), len as nat, self.policy()),
    {
        let max = self.policy.max_bytes;
        if !self.attached {
            WritePlan::Reopen
        } else if self.size == 0 || (len <= max && self.size <= max - len) {
            WritePlan::Append
        } else if self.policy.keep > 0 {
            WritePlan::Rotate
        } else {
            WritePlan::Truncate
        }
    }

    /// The rotation of the live file, or what is left of it after an attempt that failed;
    /// `live` is the result of looking for the live file.
    pub fn rotation(&self, live: Result<(), IoError>) -> (decision: Result<
        Option<Rotation>,
        IoError,
    >)
        ensures
            match live {
                Ok(_) => decision matches Ok(Some(rotation)) && rotation.goes_on(
                    self.path(),
                    self.policy().keep as nat,
                    self.done(),
                ),
                Err(err) => if err.kind == IoErrorKind::NotFound {
                    decision matches Ok(None)
                } else {
                    decision == Err::<Option<Rotation>, IoError>(err)
                },
            },
    {
        match rotate(&self.path, self.policy.keep, live) {
            Ok(Some(rotation)) => Ok(Some(Rotation { at: self.done, ..rotation })),
            Ok(None) => Ok(None),
            Err(err) => Err(err),
        }
    }

    /// How many steps of a rotation that failed are done.
    pub fn steps_done(&self) -> (done: u64)
        ensures
            done == self.done(),
    {
        self.done
    }

    /// Record how what was tried before a write ended.
    pub fn rotation_ended(&mut self, end: RotationEnd)
        ensures
            final(self).path() == old(self).path(),
            final(self).policy() == old(self).policy(),
            final(self).size() == size_after(old(self).size(), end),
            final(self).attached() == attached_after(old(self).attached(), end),
            final(self).done() == done_after(end),
    {
        match end {
            RotationEnd::Stopped { done } => {
                self.done = done;
            },
            RotationEnd::Detached => {
                self.attached = false;
                self.done = 0;
            },
            RotationEnd::Complete => {
                self.attached = true;
                self.size = 0;
                self.done = 0;
            },
        }
    }

    /// Record that `len` bytes were written.
    pub fn wrote(&mut self, len: u64)
        requires
            old(self).size() + len <= u64::MAX,
        ensures
            final(self).path() == old(self).path(),
            final(self).policy() == old(self).policy(),
            final(self).size() == old(self).size() + len,
            final(self).attached() == old(self).attached(),
            final(self).done() == old(self).done(),
    {
        self.size = self.size + len;
    }

    /// The open file's size in bytes.
    pub fn live_size(&self) -> (size: u64)
        ensures
            size == self.size(),
    {
        self.size
    }
}

/// The open file's size after `end`: a new file is empty.
pub open spec fn size_after(size: nat, end: RotationEnd) -> nat {
    if end is Complete {
        0
    } else {
        size
    }
}

/// Whether the open file is the live one after `end`.
pub open spec fn attached_after(attached: bool, end: RotationEnd) -> bool {
    match end {
        RotationEnd::Stopped { .. } => attached,
        RotationEnd::Detached => false,
        RotationEnd::Complete => true,
    }
}

/// How many steps of a rotation that failed are done after `end`.
pub open spec fn done_after(end: RotationEnd) -> nat {
    match end {
        RotationEnd::Stopped { done } => done as nat,
        _ => 0,
    }
}

} // verus!
