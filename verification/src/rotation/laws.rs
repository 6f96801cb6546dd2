//! What rotation does to the files of a log.
//!
//! Three models of one log, from the small to the large: its files by generation, on which
//! each step of a rotation acts; its files newest first, while every rotation succeeds; and
//! its files together with the one that is open, whatever fails.

use vstd::prelude::*;

use crate::rotation::{
    attached_after, done_after, generation_step, must_rotate, size_after, write_plan,
    GenerationStep, RotationEnd, RotationPolicy, WritePlan,
};

verus! {

/// The files of one log, by generation, after a step.
pub open spec fn after_step(
    files: Map<nat, Seq<u8>>,
    step: GenerationStep,
) -> Map<nat, Seq<u8>> {
    match step {
        GenerationStep::Delete(index) => files.remove(index),
        GenerationStep::Shift(index) => if files.dom().contains(index) {
            files.remove(index).insert(index + 1, files[index])
        } else {
            files
        },
        GenerationStep::Retire => if files.dom().contains(0) {
            files.remove(0).insert(1, files[0])
        } else {
            files
        },
    }
}

/// The files of one log after the steps of a rotation from number `from` up to number `to`.
pub open spec fn after_steps(
    files: Map<nat, Seq<u8>>,
    keep: nat,
    from: nat,
    to: nat,
) -> Map<nat, Seq<u8>>
    decreases to,
{
    if to <= from {
        files
    } else {
        let earlier = after_steps(files, keep, from, (to - 1) as nat);
        match generation_step(keep, (to - 1) as nat) {
            Some(step) => after_step(earlier, step),
            None => earlier,
        }
    }
}

/// The files of one log after a whole rotation, which takes no step where there is no live
/// file.
pub open spec fn after_rotation(files: Map<nat, Seq<u8>>, keep: nat) -> Map<nat, Seq<u8>> {
    if files.dom().contains(0) {
        after_steps(files, keep, 0, keep + 1)
    } else {
        files
    }
}

/// The files of one log with every generation that `keep` allows moved up by one: the live
/// file and the generations below `keep` reappear one number higher, generation `keep` is
/// gone, and whatever lies beyond stays.
pub open spec fn shifted(files: Map<nat, Seq<u8>>, keep: nat) -> Map<nat, Seq<u8>> {
    partly_shifted(files, keep, 0)
}

/// As [`shifted`] with generation `top` in place of the last that is kept, and only down to
/// generation `from`, which is left free.
pub open spec fn partly_shifted(
    files: Map<nat, Seq<u8>>,
    top: nat,
    from: nat,
) -> Map<nat, Seq<u8>> {
    Map::new(
        |g: nat|
            if from < g <= top {
                files.dom().contains((g - 1) as nat)
            } else {
                g != from && files.dom().contains(g)
            },
        |g: nat|
            if from < g <= top {
                files[(g - 1) as nat]
            } else {
                files[g]
            },
    )
}

/// The generation that a rotation with `done` steps behind it leaves free next: it deletes the
/// last that is kept first of all, and has a free one from then on.
pub open spec fn next_free(keep: nat, done: nat) -> nat {
    if done == 0 {
        keep
    } else {
        (keep + 1 - done) as nat
    }
}

proof fn lemma_partial_rotation(files: Map<nat, Seq<u8>>, keep: nat, from: nat, to: nat)
    requires
        from < to <= keep + 1,
        keep > 0,
        from > 0 ==> !files.dom().contains(next_free(keep, from)),
    ensures
        after_steps(files, keep, from, to) == partly_shifted(
            files,
            next_free(keep, from),
            (keep + 1 - to) as nat,
        ),
    decreases to,
{
    let earlier = (to - 1) as nat;
    if earlier > from {
        lemma_partial_rotation(files, keep, from, earlier);
    } else {
        reveal_with_fuel(after_steps, 2);
    }
    assert(after_steps(files, keep, from, to) =~= partly_shifted(
        files,
        next_free(keep, from),
        (keep + 1 - to) as nat,
    ));
}

/// A rotation that keeps at least one generation moves every file up by one, drops only the
/// generation that would pass `keep`, leaves no live file and touches nothing beyond. Without
/// a live file it changes nothing.
pub proof fn rotation_shifts_generations(files: Map<nat, Seq<u8>>, keep: nat)
    requires
        keep > 0,
    ensures
        after_rotation(files, keep) == if files.dom().contains(0) {
            shifted(files, keep)
        } else {
            files
        },
{
    lemma_partial_rotation(files, keep, 0, keep + 1);
}

/// Attempts add up: a rotation that stops after any number of steps and goes on from there does
/// what one does that never stops.
pub proof fn attempts_add_up(files: Map<nat, Seq<u8>>, keep: nat, done: nat, to: nat)
    requires
        done <= to,
    ensures
        after_steps(after_steps(files, keep, 0, done), keep, done, to) == after_steps(
            files,
            keep,
            0,
            to,
        ),
    decreases to,
{
    if to > done {
        attempts_add_up(files, keep, done, (to - 1) as nat);
    }
}

/// A rotation that keeps nothing deletes the live file and touches nothing else.
pub proof fn rotation_without_generations(files: Map<nat, Seq<u8>>)
    ensures
        after_rotation(files, 0) == files.remove(0),
{
    reveal_with_fuel(after_steps, 2);
    if !files.dom().contains(0) {
        assert(files.remove(0) =~= files);
    }
}

/// The files of a log after `buf` has been written, newest first and the live file in front,
/// when every rotation succeeds.
pub open spec fn after_write(
    files: Seq<Seq<u8>>,
    policy: RotationPolicy,
    buf: Seq<u8>,
) -> Seq<Seq<u8>> {
    if must_rotate(files[0].len(), buf.len(), policy.max_bytes as nat) {
        let moved = seq![buf] + files;
        if moved.len() > policy.keep + 1 {
            moved.take(policy.keep + 1)
        } else {
            moved
        }
    } else {
        files.update(0, files[0] + buf)
    }
}

/// The files of a log after each of `writes` in turn.
pub open spec fn after_writes(
    files: Seq<Seq<u8>>,
    policy: RotationPolicy,
    writes: Seq<Seq<u8>>,
) -> Seq<Seq<u8>>
    decreases writes.len(),
{
    if writes.len() == 0 {
        files
    } else {
        after_write(after_writes(files, policy, writes.drop_last()), policy, writes.last())
    }
}

/// Everything that the files hold, oldest byte first.
pub open spec fn history(files: Seq<Seq<u8>>) -> Seq<u8>
    decreases files.len(),
{
    if files.len() == 0 {
        Seq::empty()
    } else {
        history(files.drop_first()) + files[0]
    }
}

/// Everything that was written, in order.
pub open spec fn written(writes: Seq<Seq<u8>>) -> Seq<u8>
    decreases writes.len(),
{
    if writes.len() == 0 {
        Seq::empty()
    } else {
        written(writes.drop_last()) + writes.last()
    }
}

/// A log that respects its policy: a live file, at most `keep` generations behind it, and
/// no file larger than the limit.
pub open spec fn within_policy(files: Seq<Seq<u8>>, policy: RotationPolicy) -> bool {
    &&& 1 <= files.len() <= policy.keep + 1
    &&& forall|i: int| 0 <= i < files.len() ==> (#[trigger] files[i]).len() <= policy.max_bytes
}

/// The bytes that the files occupy.
pub open spec fn occupied(files: Seq<Seq<u8>>) -> nat {
    history(files).len()
}

/// Writes that each fit into one file keep a log within its policy when every rotation
/// succeeds.
pub proof fn writes_keep_the_policy(
    files: Seq<Seq<u8>>,
    policy: RotationPolicy,
    writes: Seq<Seq<u8>>,
)
    requires
        within_policy(files, policy),
        forall|i: int| 0 <= i < writes.len() ==> (#[trigger] writes[i]).len() <= policy.max_bytes,
    ensures
        within_policy(after_writes(files, policy, writes), policy),
    decreases writes.len(),
{
    if writes.len() > 0 {
        let earlier = writes.drop_last();
        assert forall|i: int| 0 <= i < earlier.len() implies (#[trigger] earlier[i]).len()
            <= policy.max_bytes by {
            assert(earlier[i] == writes[i]);
        }
        writes_keep_the_policy(files, policy, earlier);
        let before = after_writes(files, policy, earlier);
        let buf = writes.last();
        assert(buf == writes[writes.len() - 1]);
        let after = after_write(before, policy, buf);
        assert forall|i: int| 0 <= i < after.len() implies (#[trigger] after[i]).len()
            <= policy.max_bytes by {
            if must_rotate(before[0].len(), buf.len(), policy.max_bytes as nat) {
                if i > 0 {
                    assert(after[i] == before[i - 1]);
                }
            } else if i > 0 {
                assert(after[i] == before[i]);
            } else {
                assert(before[0].len() <= policy.max_bytes);
            }
        }
    }
}

/// A log within its policy never occupies more than `(keep + 1) * max_bytes`.
pub proof fn disk_use_is_bounded(files: Seq<Seq<u8>>, policy: RotationPolicy)
    requires
        within_policy(files, policy),
    ensures
        occupied(files) <= (policy.keep + 1) * policy.max_bytes,
{
    lemma_occupied_bound(files, policy.max_bytes as nat);
    assert(files.len() * policy.max_bytes <= (policy.keep + 1) * policy.max_bytes)
        by (nonlinear_arith)
        requires
            files.len() <= policy.keep + 1,
    ;
}

proof fn lemma_occupied_bound(files: Seq<Seq<u8>>, max: nat)
    requires
        forall|i: int| 0 <= i < files.len() ==> (#[trigger] files[i]).len() <= max,
    ensures
        occupied(files) <= files.len() * max,
    decreases files.len(),
{
    if files.len() > 0 {
        let older = files.drop_first();
        assert forall|i: int| 0 <= i < older.len() implies (#[trigger] older[i]).len() <= max by {
            assert(older[i] == files[i + 1]);
        }
        lemma_occupied_bound(older, max);
        assert(files[0].len() <= max);
        assert(files.len() * max == older.len() * max + max) by (nonlinear_arith)
            requires
                files.len() == older.len() + 1,
        ;
    }
}

/// `tail` is what is left of `whole` when some bytes are cut off its front.
pub open spec fn is_suffix(tail: Seq<u8>, whole: Seq<u8>) -> bool {
    tail.len() <= whole.len() && tail == whole.skip(whole.len() - tail.len())
}

proof fn lemma_history_drop_last(files: Seq<Seq<u8>>)
    requires
        files.len() > 0,
    ensures
        history(files) == files.last() + history(files.drop_last()),
    decreases files.len(),
{
    if files.len() == 1 {
        assert(files.drop_first() == Seq::<Seq<u8>>::empty());
        assert(files.drop_last() == Seq::<Seq<u8>>::empty());
        reveal_with_fuel(history, 2);
        assert(history(files) == files[0] + Seq::<u8>::empty());
    } else {
        let newer = files.drop_last();
        lemma_history_drop_last(files.drop_first());
        assert(files.drop_first().drop_last() == newer.drop_first());
        assert(history(newer) == history(newer.drop_first()) + files[0]);
        assert(history(files) == files.last() + history(newer));
    }
}

proof fn lemma_history_take(files: Seq<Seq<u8>>, n: int)
    requires
        0 <= n <= files.len(),
    ensures
        is_suffix(history(files.take(n)), history(files)),
    decreases files.len() - n,
{
    if n == files.len() {
        assert(files.take(n) == files);
        assert(history(files).skip(0) == history(files));
    } else {
        let longer = files.take(n + 1);
        lemma_history_take(files, n + 1);
        lemma_history_drop_last(longer);
        assert(longer.drop_last() == files.take(n));
        let all = history(files);
        let part = history(longer);
        let kept = history(files.take(n));
        assert(kept == part.skip(part.len() - kept.len()));
        assert(kept == all.skip(all.len() - kept.len()));
    }
}

/// A write ends up whole in the live file, behind what that file held or alone in a fresh
/// one, and is the end of what the log holds; nothing else is dropped unless the log already
/// had all the generations it may keep.
pub proof fn write_lands_whole(files: Seq<Seq<u8>>, policy: RotationPolicy, buf: Seq<u8>)
    requires
        files.len() > 0,
    ensures
        after_write(files, policy, buf)[0] == files[0] + buf || after_write(files, policy, buf)[0]
            == buf,
        is_suffix(history(after_write(files, policy, buf)), history(files) + buf),
        is_suffix(buf, history(after_write(files, policy, buf))),
        !must_rotate(files[0].len(), buf.len(), policy.max_bytes as nat) || files.len()
            <= policy.keep ==> history(after_write(files, policy, buf)) == history(files) + buf,
{
    let after = after_write(files, policy, buf);
    if must_rotate(files[0].len(), buf.len(), policy.max_bytes as nat) {
        let moved = seq![buf] + files;
        assert(moved.drop_first() == files);
        assert(history(moved) == history(files) + buf);
        if moved.len() > policy.keep + 1 {
            lemma_history_take(moved, policy.keep + 1);
        } else {
            lemma_history_take(moved, moved.len() as int);
            assert(moved.take(moved.len() as int) == moved);
        }
    } else {
        assert(after.drop_first() == files.drop_first());
        assert(history(after) == history(files) + buf);
        assert((history(files) + buf).skip(0) == history(files) + buf);
    }
    assert(history(after) == history(after.drop_first()) + after[0]);
    assert(after[0] == buf || after[0] == files[0] + buf);
    assert(after[0].skip(after[0].len() - buf.len()) == buf);
    let all = history(after);
    assert(all.skip(all.len() - buf.len()) == buf);
}

/// Nothing is lost but the oldest bytes when every rotation succeeds: what the files hold is
/// the end of what they held before followed by everything written since.
pub proof fn only_the_oldest_is_dropped(
    files: Seq<Seq<u8>>,
    policy: RotationPolicy,
    writes: Seq<Seq<u8>>,
)
    requires
        files.len() > 0,
    ensures
        after_writes(files, policy, writes).len() > 0,
        is_suffix(
            history(after_writes(files, policy, writes)),
            history(files) + written(writes),
        ),
    decreases writes.len(),
{
    if writes.len() == 0 {
        assert(history(files) + written(writes) == history(files));
        assert(history(files).skip(0) == history(files));
    } else {
        let earlier = writes.drop_last();
        only_the_oldest_is_dropped(files, policy, earlier);
        let before = after_writes(files, policy, earlier);
        write_lands_whole(before, policy, writes.last());
        let whole = history(files) + written(writes);
        let part = history(before) + writes.last();
        assert(whole == history(files) + written(earlier) + writes.last());
        assert(part == whole.skip(whole.len() - part.len()));
        let kept = history(after_writes(files, policy, writes));
        assert(kept == whole.skip(whole.len() - kept.len()));
    }
}

/// The files of a log by generation number.
pub open spec fn by_generation(files: Seq<Seq<u8>>) -> Map<nat, Seq<u8>> {
    Map::new(|g: nat| g < files.len(), |g: nat| files[g as int])
}

/// A write that rotates is a rotation of the files followed by a fresh live file with the
/// write in it.
pub proof fn write_rotates_by_generation(
    files: Seq<Seq<u8>>,
    policy: RotationPolicy,
    buf: Seq<u8>,
)
    requires
        1 <= files.len() <= policy.keep + 1,
        must_rotate(files[0].len(), buf.len(), policy.max_bytes as nat),
    ensures
        by_generation(after_write(files, policy, buf)) == after_rotation(
            by_generation(files),
            policy.keep as nat,
        ).insert(0, buf),
{
    let keep = policy.keep as nat;
    let after = after_write(files, policy, buf);
    if keep == 0 {
        rotation_without_generations(by_generation(files));
    } else {
        rotation_shifts_generations(by_generation(files), keep);
    }
    assert(by_generation(after) =~= after_rotation(by_generation(files), keep).insert(0, buf));
}

/// What generation `g` holds; a missing one holds nothing.
pub open spec fn content(files: Map<nat, Seq<u8>>, g: nat) -> Seq<u8> {
    if files.dom().contains(g) {
        files[g]
    } else {
        Seq::empty()
    }
}

/// Everything that the first `n` generations hold, the live file among them, oldest byte
/// first.
pub open spec fn held(files: Map<nat, Seq<u8>>, n: nat) -> Seq<u8>
    decreases n,
{
    if n == 0 {
        Seq::empty()
    } else {
        content(files, (n - 1) as nat) + held(files, (n - 1) as nat)
    }
}

/// One log as a writer finds it: its files by generation, whether the open file is the live
/// one, and how far a rotation that failed has come. An open file that is not the live one is
/// the first generation.
pub struct LogState {
    /// The files.
    pub files: Map<nat, Seq<u8>>,
    /// The open file is the live one.
    pub attached: bool,
    /// How many steps of a rotation that failed are done.
    pub done: nat,
}

/// What came of the plan for one write.
pub enum Turn {
    /// There was nothing to try.
    Append,
    /// What was tried failed, with this many steps of a rotation done.
    Stopped(nat),
    /// A rotation renamed the live file and failed to open a new one, which it may have
    /// created.
    Detached {
        /// Whether it did.
        created: bool,
    },
    /// A rotation was complete.
    Rotated,
    /// The live file was emptied.
    Truncated,
    /// Opening the live file failed, which may have been created.
    StillDetached {
        /// Whether it was.
        created: bool,
    },
    /// The live file was opened.
    Reopened,
}

impl Turn {
    /// What a writer records.
    pub open spec fn end(self) -> Option<RotationEnd> {
        match self {
            Turn::Append => None,
            Turn::Stopped(n) => Some(RotationEnd::Stopped { done: n as u64 }),
            Turn::Detached { .. } => Some(RotationEnd::Detached),
            Turn::Rotated => Some(RotationEnd::Complete),
            Turn::Truncated => Some(RotationEnd::Complete),
            Turn::StillDetached { .. } => Some(RotationEnd::Detached),
            Turn::Reopened => Some(RotationEnd::Complete),
        }
    }
}

/// The files with a live one among them, if `created`.
pub open spec fn with_live(files: Map<nat, Seq<u8>>, created: bool) -> Map<nat, Seq<u8>> {
    if created && !files.dom().contains(0) {
        files.insert(0, Seq::empty())
    } else {
        files
    }
}

impl LogState {
    /// The generation that is open.
    pub open spec fn current(self) -> nat {
        if self.attached {
            0
        } else {
            1
        }
    }

    /// The open file is there, and a live file that is not the open one is empty. Only where
    /// generations are kept can the open file be one, or a rotation have come part of the way;
    /// one that has left a generation free.
    pub open spec fn is_sound(self, keep: nat) -> bool {
        &&& self.files.dom().contains(self.current())
        &&& !self.attached ==> keep > 0 && self.done == 0 && content(self.files, 0).len() == 0
        &&& self.done <= keep
        &&& self.done > 0 ==> !self.files.dom().contains(next_free(keep, self.done))
    }

    /// `turn` is a way in which the plan for a write of `len` bytes can end.
    pub open spec fn allows(self, policy: RotationPolicy, len: nat, turn: Turn) -> bool {
        let size = self.files[self.current()].len();
        match write_plan(self.attached, size, len, policy) {
            WritePlan::Append => turn is Append,
            WritePlan::Rotate => {
                ||| turn matches Turn::Stopped(n) && self.done <= n <= policy.keep
                ||| turn is Detached
                ||| turn is Rotated
            },
            WritePlan::Truncate => turn == Turn::Stopped(0) || turn is Truncated,
            WritePlan::Reopen => turn is StillDetached || turn is Reopened,
        }
    }

    /// The oldest generation goes in `turn`: the first step of a rotation deletes it. A later
    /// attempt at the same rotation has that step behind it.
    pub open spec fn drops_oldest(self, turn: Turn) -> bool {
        self.done == 0 && match turn {
            Turn::Stopped(n) => n > 0,
            Turn::Detached { .. } => true,
            Turn::Rotated => true,
            Turn::Truncated => true,
            _ => false,
        }
    }

    /// The log after `turn`.
    pub open spec fn turned(self, keep: nat, turn: Turn) -> LogState {
        let rotated = after_steps(self.files, keep, self.done, keep + 1);
        match turn {
            Turn::Append => self,
            Turn::Stopped(n) => LogState {
                files: after_steps(self.files, keep, self.done, n),
                done: n,
                ..self
            },
            Turn::Detached { created } => LogState {
                files: with_live(rotated, created),
                attached: false,
                done: 0,
            },
            Turn::Rotated => LogState { files: with_live(rotated, true), attached: true, done: 0 },
            Turn::Truncated => LogState {
                files: self.files.insert(0, Seq::empty()),
                attached: true,
                done: 0,
            },
            Turn::StillDetached { created } => LogState {
                files: with_live(self.files, created),
                attached: false,
                done: 0,
            },
            Turn::Reopened => LogState {
                files: with_live(self.files, true),
                attached: true,
                done: 0,
            },
        }
    }

    /// The log with `buf` behind what the open file holds.
    pub open spec fn appended(self, buf: Seq<u8>) -> LogState {
        let g = self.current();
        LogState { files: self.files.insert(g, content(self.files, g) + buf), ..self }
    }

    /// The log after a write whose plan ended in `turn`.
    pub open spec fn wrote(self, keep: nat, turn: Turn, buf: Seq<u8>) -> LogState {
        self.turned(keep, turn).appended(buf)
    }

    /// The log after each of `writes`, with what came of each plan in `turns`.
    pub open spec fn wrote_all(
        self,
        keep: nat,
        turns: Seq<Turn>,
        writes: Seq<Seq<u8>>,
    ) -> LogState
        decreases writes.len(),
    {
        if writes.len() == 0 {
            self
        } else {
            self.wrote_all(keep, turns.drop_last(), writes.drop_last()).wrote(
                keep,
                turns.last(),
                writes.last(),
            )
        }
    }

    /// `turns` holds, for each of `writes`, a way in which its plan can end.
    pub open spec fn allows_all(
        self,
        policy: RotationPolicy,
        turns: Seq<Turn>,
        writes: Seq<Seq<u8>>,
    ) -> bool
        decreases writes.len(),
    {
        &&& turns.len() == writes.len()
        &&& writes.len() > 0 ==> {
            &&& self.allows_all(policy, turns.drop_last(), writes.drop_last())
            &&& self.wrote_all(policy.keep as nat, turns.drop_last(), writes.drop_last()).allows(
                policy,
                writes.last().len(),
                turns.last(),
            )
        }
    }
}

/// In how many of `turns` the oldest generation goes.
pub open spec fn rotations_begun(
    log: LogState,
    keep: nat,
    turns: Seq<Turn>,
    writes: Seq<Seq<u8>>,
) -> nat
    decreases writes.len(),
{
    if writes.len() == 0 {
        0
    } else {
        let earlier = log.wrote_all(keep, turns.drop_last(), writes.drop_last());
        rotations_begun(log, keep, turns.drop_last(), writes.drop_last())
            + if earlier.drops_oldest(turns.last()) {
            1nat
        } else {
            0nat
        }
    }
}

proof fn lemma_held_shift(files: Map<nat, Seq<u8>>, top: nat, from: nat, n: nat)
    requires
        from <= top,
    ensures
        n <= from ==> held(partly_shifted(files, top, from), n) == held(files, n),
        from < n <= top + 1 ==> held(partly_shifted(files, top, from), n) == held(
            files,
            (n - 1) as nat,
        ),
        n > top && !files.dom().contains(top) ==> held(partly_shifted(files, top, from), n)
            == held(files, n),
    decreases n,
{
    if n > 0 {
        let g = (n - 1) as nat;
        lemma_held_shift(files, top, from, g);
        let moved = partly_shifted(files, top, from);
        if g < from {
            assert(content(moved, g) == content(files, g));
        } else if g == from {
            assert(content(moved, g) == Seq::<u8>::empty());
            assert(Seq::<u8>::empty() + held(files, g) == held(files, g));
        } else if g <= top {
            assert(content(moved, g) == content(files, (g - 1) as nat));
        } else {
            assert(content(moved, g) == content(files, g));
        }
        if g == top && !files.dom().contains(top) {
            assert(Seq::<u8>::empty() + held(files, g) == held(files, g));
        }
    }
}

proof fn lemma_held_with_live(files: Map<nat, Seq<u8>>, created: bool, n: nat)
    ensures
        held(with_live(files, created), n) == held(files, n),
    decreases n,
{
    if n > 0 {
        lemma_held_with_live(files, created, (n - 1) as nat);
        assert(content(with_live(files, created), (n - 1) as nat) == content(
            files,
            (n - 1) as nat,
        ));
    }
}

proof fn lemma_held_append(log: LogState, keep: nat, buf: Seq<u8>, n: nat)
    requires
        log.is_sound(keep),
        log.current() < n,
    ensures
        held(log.appended(buf).files, n) == held(log.files, n) + buf,
    decreases n,
{
    let g = (n - 1) as nat;
    let after = log.appended(buf);
    if g == log.current() {
        reveal_with_fuel(held, 2);
        assert(held(log.files, g) =~= Seq::<u8>::empty());
        assert(held(after.files, g) =~= Seq::<u8>::empty());
    } else {
        lemma_held_append(log, keep, buf, g);
        assert(content(after.files, g) == content(log.files, g));
    }
    assert(held(after.files, n) =~= held(log.files, n) + buf);
}

/// Where a rotation gets from `done` steps to `to` steps, what is held below a generation.
proof fn lemma_held_steps(log: LogState, keep: nat, to: nat, n: nat)
    requires
        keep > 0,
        log.is_sound(keep),
        log.attached,
        log.done < to <= keep + 1,
    ensures
        ({
            let after = after_steps(log.files, keep, log.done, to);
            let free = (keep + 1 - to) as nat;
            let top = next_free(keep, log.done);
            &&& after == partly_shifted(log.files, top, free)
            &&& n <= free ==> held(after, n) == held(log.files, n)
            &&& free < n <= top + 1 ==> held(after, n) == held(log.files, (n - 1) as nat)
            &&& log.done > 0 && n > top ==> held(after, n) == held(log.files, n)
        }),
{
    lemma_partial_rotation(log.files, keep, log.done, to);
    lemma_held_shift(log.files, next_free(keep, log.done), (keep + 1 - to) as nat, n);
}

proof fn lemma_turn_is_sound(log: LogState, policy: RotationPolicy, len: nat, turn: Turn)
    requires
        log.is_sound(policy.keep as nat),
        log.allows(policy, len, turn),
    ensures
        log.turned(policy.keep as nat, turn).is_sound(policy.keep as nat),
{
    let keep = policy.keep as nat;
    match turn {
        Turn::Stopped(n) => {
            if n > log.done {
                lemma_held_steps(log, keep, n, 0);
            }
        },
        Turn::Detached { .. } => {
            lemma_held_steps(log, keep, keep + 1, 0);
        },
        Turn::Rotated => {
            lemma_held_steps(log, keep, keep + 1, 0);
        },
        _ => {},
    }
}

/// However what is tried before a write ends, the write is the end of what the log holds, and
/// nothing is gone but the oldest generation, which the first step of a rotation deletes. An
/// attempt that goes on with a rotation loses nothing.
pub proof fn a_write_drops_only_the_oldest(
    log: LogState,
    policy: RotationPolicy,
    turn: Turn,
    buf: Seq<u8>,
)
    requires
        log.is_sound(policy.keep as nat),
        log.allows(policy, buf.len(), turn),
    ensures
        log.wrote(policy.keep as nat, turn, buf).is_sound(policy.keep as nat),
        held(log.wrote(policy.keep as nat, turn, buf).files, policy.keep as nat + 1) == held(
            log.files,
            if log.drops_oldest(turn) {
                policy.keep as nat
            } else {
                policy.keep as nat + 1
            },
        ) + buf,
{
    let keep = policy.keep as nat;
    let after = log.turned(keep, turn);
    lemma_turn_is_sound(log, policy, buf.len(), turn);
    lemma_held_append(after, keep, buf, keep + 1);
    match turn {
        Turn::Append => {},
        Turn::Stopped(n) => {
            if n > log.done {
                lemma_held_steps(log, keep, n, keep + 1);
            }
        },
        Turn::Detached { created } => {
            lemma_held_steps(log, keep, keep + 1, keep + 1);
            lemma_held_with_live(
                after_steps(log.files, keep, log.done, keep + 1),
                created,
                keep + 1,
            );
        },
        Turn::Rotated => {
            lemma_held_steps(log, keep, keep + 1, keep + 1);
            lemma_held_with_live(
                after_steps(log.files, keep, log.done, keep + 1),
                true,
                keep + 1,
            );
        },
        Turn::Truncated => {
            reveal_with_fuel(held, 2);
            assert(held(after.files, 1) =~= held(log.files, 0));
        },
        Turn::StillDetached { created } => {
            lemma_held_with_live(log.files, created, keep + 1);
        },
        Turn::Reopened => {
            lemma_held_with_live(log.files, true, keep + 1);
        },
    }
}

proof fn lemma_suffix_of_longer(tail: Seq<u8>, part: Seq<u8>, whole: Seq<u8>, buf: Seq<u8>)
    requires
        is_suffix(tail, part),
        is_suffix(part, whole),
    ensures
        is_suffix(tail + buf, whole + buf),
        is_suffix(tail, whole),
{
    assert(tail =~= whole.skip(whole.len() - tail.len()));
    let more = whole + buf;
    assert(tail + buf =~= more.skip(more.len() - (tail + buf).len()));
}

proof fn lemma_held_suffix(files: Map<nat, Seq<u8>>, n: nat, m: nat)
    requires
        n <= m,
    ensures
        is_suffix(held(files, n), held(files, m)),
    decreases m,
{
    if n == m {
        assert(held(files, n).skip(0) =~= held(files, n));
    } else {
        let g = (m - 1) as nat;
        lemma_held_suffix(files, n, g);
        let whole = held(files, m);
        assert(held(files, g) =~= whole.skip(whole.len() - held(files, g).len()));
        lemma_suffix_of_longer(held(files, n), held(files, g), whole, Seq::empty());
    }
}

/// Whatever rotations fail, in whatever way and however often, nothing is lost but the oldest
/// bytes: what the files hold is the end of what they held before followed by everything
/// written since.
pub proof fn failed_rotations_drop_only_the_oldest(
    log: LogState,
    policy: RotationPolicy,
    turns: Seq<Turn>,
    writes: Seq<Seq<u8>>,
)
    requires
        log.is_sound(policy.keep as nat),
        log.allows_all(policy, turns, writes),
    ensures
        log.wrote_all(policy.keep as nat, turns, writes).is_sound(policy.keep as nat),
        is_suffix(
            held(log.wrote_all(policy.keep as nat, turns, writes).files, policy.keep as nat + 1),
            held(log.files, policy.keep as nat + 1) + written(writes),
        ),
    decreases writes.len(),
{
    let keep = policy.keep as nat;
    let start = held(log.files, keep + 1);
    if writes.len() == 0 {
        assert(start + written(writes) =~= start);
        assert(start.skip(0) =~= start);
    } else {
        let earlier = writes.drop_last();
        failed_rotations_drop_only_the_oldest(log, policy, turns.drop_last(), earlier);
        let before = log.wrote_all(keep, turns.drop_last(), earlier);
        a_write_drops_only_the_oldest(before, policy, turns.last(), writes.last());
        let whole = start + written(earlier);
        assert(whole + writes.last() =~= start + written(writes));
        let n = if before.drops_oldest(turns.last()) {
            keep
        } else {
            keep + 1
        };
        lemma_held_suffix(before.files, n, keep + 1);
        lemma_suffix_of_longer(
            held(before.files, n),
            held(before.files, keep + 1),
            whole,
            writes.last(),
        );
    }
}

/// Nothing at all is lost while attempts at one rotation fail: from its first step on, the log
/// only grows until the rotation is complete.
pub proof fn retries_lose_nothing(
    log: LogState,
    policy: RotationPolicy,
    turns: Seq<Turn>,
    writes: Seq<Seq<u8>>,
)
    requires
        log.is_sound(policy.keep as nat),
        log.done > 0,
        log.allows_all(policy, turns, writes),
        forall|i: int| 0 <= i < turns.len() ==> turns[i] is Append || turns[i] is Stopped,
    ensures
        log.wrote_all(policy.keep as nat, turns, writes).is_sound(policy.keep as nat),
        log.wrote_all(policy.keep as nat, turns, writes).done >= log.done,
        held(log.wrote_all(policy.keep as nat, turns, writes).files, policy.keep as nat + 1)
            == held(log.files, policy.keep as nat + 1) + written(writes),
    decreases writes.len(),
{
    let keep = policy.keep as nat;
    let start = held(log.files, keep + 1);
    if writes.len() == 0 {
        assert(start + written(writes) =~= start);
    } else {
        let earlier = writes.drop_last();
        assert forall|i: int| 0 <= i < turns.drop_last().len() implies turns.drop_last()[i]
            is Append || turns.drop_last()[i] is Stopped by {
            assert(turns.drop_last()[i] == turns[i]);
        }
        retries_lose_nothing(log, policy, turns.drop_last(), earlier);
        let before = log.wrote_all(keep, turns.drop_last(), earlier);
        assert(turns.last() == turns[turns.len() - 1]);
        a_write_drops_only_the_oldest(before, policy, turns.last(), writes.last());
        assert(start + written(earlier) + writes.last() =~= start + written(writes));
    }
}

/// What the log holds up to generation `m`, where a rotation that has come part of the way has
/// not moved up what lies below the generation that it left free.
spec fn held_up_to(log: LogState, keep: nat, m: nat) -> Seq<u8> {
    if log.done > 0 && m <= next_free(keep, log.done) {
        held(log.files, m)
    } else {
        held(log.files, m + 1)
    }
}

proof fn lemma_turn_moves_up(
    log: LogState,
    policy: RotationPolicy,
    len: nat,
    turn: Turn,
    m: nat,
)
    requires
        log.is_sound(policy.keep as nat),
        log.allows(policy, len, turn),
        log.done > 0 ==> m > 0,
        log.drops_oldest(turn) ==> m < policy.keep,
    ensures
        held_up_to(
            log.turned(policy.keep as nat, turn),
            policy.keep as nat,
            if log.drops_oldest(turn) {
                m + 1
            } else {
                m
            },
        ) == held_up_to(log, policy.keep as nat, m),
{
    let keep = policy.keep as nat;
    let to = if log.drops_oldest(turn) {
        m + 1
    } else {
        m
    };
    match turn {
        Turn::Append => {},
        Turn::Stopped(n) => {
            if n > log.done {
                lemma_held_steps(log, keep, n, to);
                lemma_held_steps(log, keep, n, to + 1);
            }
        },
        Turn::Detached { created } => {
            lemma_held_steps(log, keep, keep + 1, to + 1);
            lemma_held_with_live(
                after_steps(log.files, keep, log.done, keep + 1),
                created,
                to + 1,
            );
        },
        Turn::Rotated => {
            lemma_held_steps(log, keep, keep + 1, to + 1);
            lemma_held_with_live(
                after_steps(log.files, keep, log.done, keep + 1),
                true,
                to + 1,
            );
        },
        Turn::Truncated => {},
        Turn::StillDetached { created } => {
            lemma_held_with_live(log.files, created, to + 1);
        },
        Turn::Reopened => {
            lemma_held_with_live(log.files, true, to + 1);
        },
    }
}

/// The generation that the open file is, or will be once a rotation that has come part of the
/// way is complete.
pub open spec fn next_place(log: LogState) -> nat {
    if log.done > 0 {
        1
    } else {
        log.current()
    }
}

proof fn lemma_recent_bytes(
    log: LogState,
    policy: RotationPolicy,
    turns: Seq<Turn>,
    writes: Seq<Seq<u8>>,
)
    requires
        log.is_sound(policy.keep as nat),
        log.allows_all(policy, turns, writes),
        next_place(log) + rotations_begun(log, policy.keep as nat, turns, writes) <= policy.keep,
    ensures
        ({
            let keep = policy.keep as nat;
            let after = log.wrote_all(keep, turns, writes);
            let m = next_place(log) + rotations_begun(log, keep, turns, writes);
            &&& after.is_sound(keep)
            &&& after.current() <= m
            &&& after.done > 0 ==> m > 0
            &&& is_suffix(log.files[log.current()] + written(writes), held_up_to(after, keep, m))
        }),
    decreases writes.len(),
{
    let keep = policy.keep as nat;
    let base = log.files[log.current()];
    if writes.len() == 0 {
        reveal_with_fuel(held, 3);
        let all = held_up_to(log, keep, next_place(log));
        assert(base + written(writes) =~= base);
        assert(all =~= base);
        assert(all.skip(0) =~= all);
    } else {
        let turn = turns.last();
        let buf = writes.last();
        let earlier = writes.drop_last();
        lemma_recent_bytes(log, policy, turns.drop_last(), earlier);
        let before = log.wrote_all(keep, turns.drop_last(), earlier);
        let n = next_place(log) + rotations_begun(log, keep, turns.drop_last(), earlier);
        let m = next_place(log) + rotations_begun(log, keep, turns, writes);
        lemma_turn_is_sound(before, policy, buf.len(), turn);
        lemma_turn_moves_up(before, policy, buf.len(), turn, n);
        let between = before.turned(keep, turn);
        let after = between.appended(buf);
        assert(between.current() <= m);
        assert(between.done > 0 ==> m > 0);
        lemma_held_append(between, keep, buf, m + 1);
        if m > 0 && between.attached {
            lemma_held_append(between, keep, buf, m);
        }
        assert(held_up_to(after, keep, m) =~= held_up_to(between, keep, m) + buf);
        assert((base + written(earlier)) + buf =~= base + written(writes));
        let whole = held_up_to(before, keep, n);
        assert(whole.skip(0) =~= whole);
        lemma_suffix_of_longer(base + written(earlier), whole, whole, buf);
    }
}

/// A line outlives as many rotations as there are generations behind the file that it went
/// into, however often each of them fails and in whatever way: what the open file held, and
/// everything written since, is still the end of what the log holds.
pub proof fn recent_lines_survive_failed_rotations(
    log: LogState,
    policy: RotationPolicy,
    turns: Seq<Turn>,
    writes: Seq<Seq<u8>>,
)
    requires
        log.is_sound(policy.keep as nat),
        log.allows_all(policy, turns, writes),
        next_place(log) + rotations_begun(log, policy.keep as nat, turns, writes) <= policy.keep,
    ensures
        is_suffix(
            log.files[log.current()] + written(writes),
            held(log.wrote_all(policy.keep as nat, turns, writes).files, policy.keep as nat + 1),
        ),
{
    let keep = policy.keep as nat;
    lemma_recent_bytes(log, policy, turns, writes);
    let after = log.wrote_all(keep, turns, writes);
    let m = next_place(log) + rotations_begun(log, keep, turns, writes);
    let n = if after.done > 0 && m <= next_free(keep, after.done) {
        m
    } else {
        m + 1
    };
    lemma_held_suffix(after.files, n, keep + 1);
    lemma_suffix_of_longer(
        log.files[log.current()] + written(writes),
        held(after.files, n),
        held(after.files, keep + 1),
        Seq::empty(),
    );
}

/// A writer that records what came of each plan, and then the write, keeps counting the file
/// that is open, and knows whether it is the live one and how far a rotation has come.
pub proof fn writer_tracks_the_open_file(
    log: LogState,
    policy: RotationPolicy,
    turn: Turn,
    buf: Seq<u8>,
)
    requires
        log.is_sound(policy.keep as nat),
        log.allows(policy, buf.len(), turn),
    ensures
        ({
            let size = log.files[log.current()].len();
            let after = log.wrote(policy.keep as nat, turn, buf);
            match turn.end() {
                Some(end) => {
                    &&& after.files[after.current()].len() == size_after(size, end) + buf.len()
                    &&& after.attached == attached_after(log.attached, end)
                    &&& after.done == done_after(end)
                },
                None => {
                    &&& after.files[after.current()].len() == size + buf.len()
                    &&& after.attached == log.attached
                    &&& after.done == log.done
                },
            }
        }),
{
    let keep = policy.keep as nat;
    lemma_turn_is_sound(log, policy, buf.len(), turn);
    match turn {
        Turn::Stopped(n) => {
            if n > log.done {
                lemma_held_steps(log, keep, n, 0);
            }
        },
        Turn::Detached { .. } => {
            lemma_held_steps(log, keep, keep + 1, 0);
        },
        Turn::Rotated => {
            lemma_held_steps(log, keep, keep + 1, 0);
        },
        _ => {},
    }
}

} // verus!
