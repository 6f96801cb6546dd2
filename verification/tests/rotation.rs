use std::collections::BTreeMap;
use std::path::{Path, PathBuf};

use flamingo_agent::platform::{IoError, IoErrorKind};
use flamingo_agent::rotation::{
    rotate, rotate_if_large, rotated_name, RotatingWriter, Rotation, RotationEnd, RotationPolicy,
    RotationStep, WritePlan,
};

fn policy(max_bytes: u64, keep: u32) -> RotationPolicy {
    RotationPolicy { max_bytes, keep }
}

fn not_found() -> IoError {
    IoError {
        kind: IoErrorKind::NotFound,
        message: "no such file".to_string(),
    }
}

fn denied() -> IoError {
    IoError {
        kind: IoErrorKind::Other,
        message: "permission denied".to_string(),
    }
}

/// A directory in memory, which can be told to fail.
#[derive(Default)]
struct Disk {
    files: BTreeMap<PathBuf, String>,
    /// The file that is open, where it has been renamed.
    renamed: Option<PathBuf>,
    /// Fail the file operation behind this many steps of a rotation.
    fail_after: Option<u64>,
    /// Fail to empty the live file.
    fail_truncate: bool,
    /// Fail to open the live file.
    fail_open: bool,
    /// Leave an empty live file behind when opening it fails.
    create_before_failing: bool,
}

impl Disk {
    fn remove(&mut self, path: &Path) -> Result<(), IoError> {
        self.files.remove(path).map(|_| ()).ok_or_else(not_found)
    }

    fn rename(&mut self, from: &Path, to: &Path) -> Result<(), IoError> {
        let content = self.files.remove(from).ok_or_else(not_found)?;
        self.files.insert(to.to_path_buf(), content);
        Ok(())
    }

    fn run(&mut self, rotation: &mut Rotation) -> Result<(), IoError> {
        while let Some(step) = rotation.next_step() {
            if self.fail_after == Some(rotation.steps_done()) {
                return rotation.settle(Err(denied()));
            }
            let result = match &step {
                RotationStep::Delete { path } => self.remove(path),
                RotationStep::Shift { from, to } => {
                    if self.files.contains_key(from) {
                        self.rename(from, to)
                    } else {
                        Ok(())
                    }
                }
                RotationStep::Retire { from, to } => self.rename(from, to),
            };
            rotation.settle(result)?;
        }
        Ok(())
    }

    fn size(&self, path: &Path) -> Result<u64, IoError> {
        self.files
            .get(path)
            .map(|content| content.len() as u64)
            .ok_or_else(not_found)
    }

    fn rotate_if_large(&mut self, path: &PathBuf, policy: &RotationPolicy) -> Result<bool, IoError> {
        match rotate_if_large(path, self.size(path), policy)? {
            Some(mut rotation) => {
                self.run(&mut rotation)?;
                Ok(true)
            }
            None => Ok(false),
        }
    }

    fn look_for(&self, path: &Path) -> Result<(), IoError> {
        self.size(path).map(|_| ())
    }

    fn rotate(&mut self, path: &PathBuf, keep: u32) -> Result<(), IoError> {
        match rotate(path, keep, self.look_for(path))? {
            Some(mut rotation) => self.run(&mut rotation),
            None => Ok(()),
        }
    }

    fn reopen(&mut self, live: &PathBuf) -> RotationEnd {
        if !self.fail_open || self.create_before_failing {
            self.files.entry(live.clone()).or_default();
        }
        if self.fail_open {
            self.renamed = Some(rotated_name(live, 1));
            RotationEnd::Detached
        } else {
            self.renamed = None;
            RotationEnd::Complete
        }
    }

    fn rotate_now(&mut self, writer: &RotatingWriter, live: &PathBuf) -> RotationEnd {
        match writer.rotation(self.look_for(live)) {
            Ok(Some(mut rotation)) => {
                if self.run(&mut rotation).is_err() {
                    return RotationEnd::Stopped {
                        done: rotation.steps_done(),
                    };
                }
            }
            Ok(None) => {}
            Err(_) => {
                return RotationEnd::Stopped {
                    done: writer.steps_done(),
                }
            }
        }
        self.reopen(live)
    }

    fn write(&mut self, writer: &mut RotatingWriter, live: &PathBuf, text: &str) {
        match writer.before_write(text.len() as u64) {
            WritePlan::Append => {}
            WritePlan::Rotate => {
                let end = self.rotate_now(writer, live);
                writer.rotation_ended(end);
            }
            WritePlan::Truncate => {
                let end = if self.fail_truncate {
                    RotationEnd::Stopped { done: 0 }
                } else {
                    self.files.insert(live.clone(), String::new());
                    RotationEnd::Complete
                };
                writer.rotation_ended(end);
            }
            WritePlan::Reopen => {
                let end = self.reopen(live);
                writer.rotation_ended(end);
            }
        }
        let open = self.renamed.clone().unwrap_or_else(|| live.clone());
        self.files.entry(open).or_default().push_str(text);
        writer.wrote(text.len() as u64);
    }

    /// Everything in the log, oldest first.
    fn held(&self, live: &PathBuf, keep: u32) -> String {
        let mut all = String::new();
        for index in (1..=keep).rev() {
            if let Some(text) = self.files.get(&rotated_name(live, index)) {
                all.push_str(text);
            }
        }
        if let Some(text) = self.files.get(live) {
            all.push_str(text);
        }
        all
    }
}

#[test]
fn rotated_names_keep_the_extension() {
    assert_eq!(
        rotated_name(&PathBuf::from("/x/agent.log"), 3),
        PathBuf::from("/x/agent.3.log")
    );
    assert_eq!(
        rotated_name(&PathBuf::from("/x/agent"), 1),
        PathBuf::from("/x/agent.1")
    );
}

#[test]
fn rotated_names_of_odd_paths() {
    assert_eq!(
        rotated_name(&PathBuf::from("/x/.hidden"), 2),
        PathBuf::from("/x/.hidden.2")
    );
    assert_eq!(
        rotated_name(&PathBuf::from("/x/a.tar.gz"), 10),
        PathBuf::from("/x/a.tar.10.gz")
    );
    assert_eq!(
        rotated_name(&PathBuf::from("agent.log"), 1),
        PathBuf::from("agent.1.log")
    );
    assert_eq!(
        rotated_name(&PathBuf::from("/x/a\\b.log"), 1),
        PathBuf::from("/x/a\\b.1.log")
    );
    assert_eq!(
        rotated_name(&PathBuf::from("/x/12:30.log"), 1),
        PathBuf::from("/x/12:30.1.log")
    );
    assert_eq!(
        rotated_name(&PathBuf::from("//x/agent.log"), 1),
        PathBuf::from("//x/agent.1.log")
    );
}

#[test]
fn no_two_generations_share_a_path() {
    for live in [
        "/x/agent.log",
        "/x/agent",
        "/x/1.1",
        "/x/1.1.log",
        "/x/.1",
        "agent.log",
        "/x/a\\b:c.1.1",
        "/x/c:agent.log",
        "c:1.1",
        "/x/agent.log/.",
    ] {
        let live = PathBuf::from(live);
        let mut paths = vec![live.clone()];
        for index in [0, 1, 2, 10, 11, 111, u32::MAX] {
            paths.push(rotated_name(&live, index));
        }
        for (i, one) in paths.iter().enumerate() {
            for other in &paths[i + 1..] {
                assert_ne!(one, other);
            }
            assert_eq!(one.parent(), live.parent());
        }
    }
}

#[test]
fn rotate_shifts_generations_and_drops_the_oldest() {
    let live = PathBuf::from("/logs/agent.log");
    let mut disk = Disk::default();
    for content in ["first", "second", "third"] {
        disk.files.insert(live.clone(), content.to_string());
        disk.rotate(&live, 2).unwrap();
        assert!(
            !disk.files.contains_key(&live),
            "live file must have been renamed away"
        );
    }
    assert_eq!(disk.files[&rotated_name(&live, 1)], "third");
    assert_eq!(disk.files[&rotated_name(&live, 2)], "second");
    assert!(
        !disk.files.contains_key(&rotated_name(&live, 3)),
        "generation 3 exceeds keep = 2"
    );
}

#[test]
fn rotate_with_keep_zero_deletes_the_live_file() {
    let live = PathBuf::from("/logs/agent.log");
    let mut disk = Disk::default();
    disk.files.insert(live.clone(), "gone".to_string());
    disk.rotate(&live, 0).unwrap();
    assert!(!disk.files.contains_key(&live));
    assert!(!disk.files.contains_key(&rotated_name(&live, 1)));
}

#[test]
fn rotating_a_missing_file_is_not_an_error() {
    let absent = PathBuf::from("/logs/absent.log");
    let mut disk = Disk::default();
    disk.rotate(&absent, 3).unwrap();
    assert!(!disk.rotate_if_large(&absent, &policy(10, 3)).unwrap());
}

#[test]
fn rotate_if_large_only_rotates_at_the_threshold() {
    let live = PathBuf::from("/logs/child.log");
    let mut disk = Disk::default();
    disk.files.insert(live.clone(), "123456789".to_string());
    assert!(!disk.rotate_if_large(&live, &policy(10, 1)).unwrap());
    assert!(disk.files.contains_key(&live));
    disk.files.insert(live.clone(), "1234567890".to_string());
    assert!(disk.rotate_if_large(&live, &policy(10, 1)).unwrap());
    assert!(!disk.files.contains_key(&live));
    assert_eq!(disk.files[&rotated_name(&live, 1)], "1234567890");
}

#[test]
fn an_unreadable_size_is_handed_on() {
    let live = PathBuf::from("/logs/child.log");
    let err = rotate_if_large(&live, Err(denied()), &policy(10, 1)).unwrap_err();
    assert_eq!(err, denied());
}

#[test]
fn writer_rotates_before_exceeding_the_limit_and_loses_nothing() {
    let live = PathBuf::from("/logs/agent.log");
    let mut disk = Disk::default();
    // 13-byte lines, a 27-byte limit: two lines per generation, six lines in total.
    let mut w = RotatingWriter::open(&live, policy(27, 2), 0);
    for i in 0..6 {
        disk.write(&mut w, &live, &format!("line {i} xxxxx\n"));
    }
    let live_text = disk.files[&live].clone();
    let gen1 = disk.files[&rotated_name(&live, 1)].clone();
    let gen2 = disk.files[&rotated_name(&live, 2)].clone();
    assert!(!disk.files.contains_key(&rotated_name(&live, 3)));
    for text in [&live_text, &gen1, &gen2] {
        assert!(text.len() <= 27, "{text:?} exceeds the limit");
        assert_eq!(text.lines().count(), 2, "{text:?}");
        assert!(
            text.ends_with('\n'),
            "a line straddled a rotation: {text:?}"
        );
    }
    // The two newest generations plus the live file hold the last six lines.
    let all = format!("{gen2}{gen1}{live_text}");
    assert_eq!(all.lines().count(), 6);
    assert!(all.starts_with("line 0"));
    assert!(all.ends_with("line 5 xxxxx\n"));
}

#[test]
fn writer_appends_to_an_existing_file_and_counts_its_size() {
    let live = PathBuf::from("/logs/agent.log");
    let mut disk = Disk::default();
    disk.files.insert(live.clone(), "existing\n".to_string());
    let mut w = RotatingWriter::open(&live, policy(1 << 20, 1), disk.size(&live).unwrap());
    assert_eq!(w.live_size(), 9);
    disk.write(&mut w, &live, "more\n");
    assert_eq!(disk.files[&live], "existing\nmore\n");
    assert_eq!(w.live_size(), 14);
}

#[test]
fn disk_use_stays_bounded_and_only_the_oldest_lines_go() {
    let live = PathBuf::from("/logs/agent.log");
    let mut disk = Disk::default();
    let mut w = RotatingWriter::open(&live, policy(20, 1), 0);
    let mut written = String::new();
    for i in 0..50 {
        let line = format!("{i}\n");
        written.push_str(&line);
        disk.write(&mut w, &live, &line);
        let used: usize = disk.files.values().map(String::len).sum();
        assert!(used <= 40, "{used}");
        let older = disk
            .files
            .get(&rotated_name(&live, 1))
            .cloned()
            .unwrap_or_default();
        let held = format!("{older}{}", disk.files[&live]);
        assert!(written.ends_with(&held), "{held:?}");
    }
}

#[test]
fn an_oversized_write_to_an_empty_file_does_not_rotate() {
    let live = PathBuf::from("/logs/agent.log");
    let w = RotatingWriter::open(&live, policy(10, 1), 0);
    assert_eq!(w.before_write(11), WritePlan::Append);
    let w = RotatingWriter::open(&live, policy(10, 1), 1);
    assert_eq!(w.before_write(9), WritePlan::Append);
    assert_eq!(w.before_write(10), WritePlan::Rotate);
    assert_eq!(w.before_write(u64::MAX), WritePlan::Rotate);
}

#[test]
fn a_failed_rotation_keeps_the_current_size() {
    let live = PathBuf::from("/logs/agent.log");
    let mut w = RotatingWriter::open(&live, policy(10, 1), 8);
    assert_eq!(w.before_write(5), WritePlan::Rotate);
    w.rotation_ended(RotationEnd::Stopped { done: 1 });
    assert_eq!(w.steps_done(), 1);
    assert_eq!(w.live_size(), 8);
    w.wrote(5);
    assert_eq!(w.live_size(), 13);
    assert_eq!(w.before_write(1), WritePlan::Rotate);
    w.rotation_ended(RotationEnd::Detached);
    assert_eq!(w.live_size(), 13);
    assert_eq!(w.before_write(0), WritePlan::Reopen);
    w.rotation_ended(RotationEnd::Complete);
    assert_eq!(w.live_size(), 0);
    assert_eq!(w.before_write(5), WritePlan::Append);
}

#[test]
fn generations_stay_where_they_are_without_a_live_file() {
    let live = PathBuf::from("/logs/agent.log");
    let mut disk = Disk::default();
    disk.files.insert(rotated_name(&live, 1), "first".to_string());
    disk.files.insert(rotated_name(&live, 2), "second".to_string());
    let before = disk.files.clone();
    disk.rotate(&live, 2).unwrap();
    assert_eq!(disk.files, before);
    disk.rotate(&live, 0).unwrap();
    assert_eq!(disk.files, before);
    assert!(!disk.rotate_if_large(&live, &policy(0, 2)).unwrap());
    assert_eq!(disk.files, before);
}

#[test]
fn a_live_file_that_cannot_be_looked_for_stops_the_rotation() {
    let live = PathBuf::from("/logs/agent.log");
    assert_eq!(rotate(&live, 2, Err(denied())).unwrap_err(), denied());
    assert!(rotate(&live, 2, Err(not_found())).unwrap().is_none());
    assert!(rotate(&live, 2, Ok(())).unwrap().is_some());
    let w = RotatingWriter::open(&live, policy(10, 2), 0);
    assert_eq!(w.rotation(Err(denied())).unwrap_err(), denied());
    assert!(w.rotation(Err(not_found())).unwrap().is_none());
    assert!(w.rotation(Ok(())).unwrap().is_some());
}

#[test]
fn a_failed_reopen_loses_no_line() {
    let live = PathBuf::from("/logs/agent.log");
    for create_before_failing in [false, true] {
        let mut disk = Disk {
            create_before_failing,
            ..Disk::default()
        };
        disk.files.insert(live.clone(), "0123456789".to_string());
        let mut w = RotatingWriter::open(&live, policy(10, 1), 10);
        disk.fail_open = true;
        disk.write(&mut w, &live, "b1");
        assert_eq!(disk.held(&live, 1), "0123456789b1");
        disk.write(&mut w, &live, "b2");
        assert_eq!(disk.held(&live, 1), "0123456789b1b2");
        disk.fail_open = false;
        disk.write(&mut w, &live, "b3");
        assert_eq!(disk.held(&live, 1), "0123456789b1b2b3");
        assert_eq!(disk.files[&live], "b3");
        assert_eq!(w.live_size(), 2);
    }
}

#[test]
fn a_rotation_after_a_failed_reopen_keeps_the_lines_in_between() {
    let live = PathBuf::from("/logs/agent.log");
    let mut disk = Disk::default();
    disk.files.insert(live.clone(), "old".to_string());
    let mut w = RotatingWriter::open(&live, policy(3, 1), 3);
    disk.fail_open = true;
    disk.write(&mut w, &live, "b1");
    disk.fail_open = false;
    disk.write(&mut w, &live, "b2");
    assert_eq!(disk.files[&rotated_name(&live, 1)], "oldb1");
    assert_eq!(disk.files[&live], "b2");
    disk.write(&mut w, &live, "b3");
    assert_eq!(disk.files[&rotated_name(&live, 1)], "b2");
    assert_eq!(disk.files[&live], "b3");
}

#[test]
fn a_rotation_that_stops_anywhere_drops_only_the_oldest() {
    let live = PathBuf::from("/logs/agent.log");
    for fail_after in 0..=3 {
        let mut disk = Disk {
            fail_after: Some(fail_after),
            ..Disk::default()
        };
        disk.files.insert(live.clone(), "live".to_string());
        for (index, text) in [(1, "one"), (2, "two"), (3, "three")] {
            disk.files.insert(rotated_name(&live, index), text.to_string());
        }
        let mut w = RotatingWriter::open(&live, policy(4, 3), 4);
        let oldest = if fail_after == 0 { "three" } else { "" };
        let mut lines = String::from("live");
        // However often it fails, nothing else goes.
        for _ in 0..5 {
            disk.write(&mut w, &live, "!");
            lines.push('!');
            assert_eq!(disk.held(&live, 3), format!("{oldest}twoone{lines}"));
            assert_eq!(disk.files[&live], lines);
            assert_eq!(w.steps_done(), fail_after);
        }
        disk.fail_after = None;
        disk.write(&mut w, &live, ".");
        assert_eq!(disk.held(&live, 3), format!("twoone{lines}."));
        assert_eq!(disk.files[&live], ".");
        assert_eq!(disk.files[&rotated_name(&live, 1)], lines);
        assert_eq!(disk.files[&rotated_name(&live, 2)], "one");
        assert_eq!(disk.files[&rotated_name(&live, 3)], "two");
        assert_eq!(w.steps_done(), 0);
    }
}

#[test]
fn failed_renames_leave_both_generations() {
    let live = PathBuf::from("/logs/agent.log");
    let mut disk = Disk {
        fail_after: Some(2),
        ..Disk::default()
    };
    disk.files.insert(live.clone(), "live".to_string());
    disk.files.insert(rotated_name(&live, 1), "one".to_string());
    disk.files.insert(rotated_name(&live, 2), "two".to_string());
    let mut w = RotatingWriter::open(&live, policy(4, 2), 4);
    disk.write(&mut w, &live, "a");
    disk.write(&mut w, &live, "b");
    assert_eq!(disk.held(&live, 2), "oneliveab");
}

#[test]
fn only_a_missing_file_settles_a_failed_step() {
    let live = PathBuf::from("/logs/agent.log");
    let mut rotation = rotate(&live, 2, Ok(())).unwrap().unwrap();
    // Deleting.
    assert!(matches!(rotation.next_step(), Some(RotationStep::Delete { .. })));
    assert_eq!(rotation.settle(Err(denied())), Err(denied()));
    assert_eq!(rotation.steps_done(), 0);
    assert!(rotation.settle(Err(not_found())).is_ok());
    assert_eq!(rotation.steps_done(), 1);
    // Shifting.
    assert!(matches!(rotation.next_step(), Some(RotationStep::Shift { .. })));
    assert_eq!(rotation.settle(Err(not_found())), Err(not_found()));
    assert_eq!(rotation.steps_done(), 1);
    assert!(rotation.settle(Ok(())).is_ok());
    // Retiring.
    assert!(matches!(rotation.next_step(), Some(RotationStep::Retire { .. })));
    assert_eq!(rotation.settle(Err(denied())), Err(denied()));
    assert!(rotation.settle(Err(not_found())).is_ok());
    assert!(rotation.next_step().is_none());
    assert_eq!(rotation.steps_done(), 3);
}

#[test]
fn a_writer_that_keeps_nothing_starts_over() {
    let live = PathBuf::from("/logs/agent.log");
    let mut disk = Disk::default();
    disk.files.insert(live.clone(), "old".to_string());
    let mut w = RotatingWriter::open(&live, policy(3, 0), 3);
    assert_eq!(w.before_write(1), WritePlan::Truncate);
    disk.fail_truncate = true;
    disk.fail_open = true;
    disk.write(&mut w, &live, "b1");
    disk.write(&mut w, &live, "b2");
    assert_eq!(disk.held(&live, 0), "oldb1b2");
    disk.fail_truncate = false;
    disk.write(&mut w, &live, "b3");
    assert_eq!(disk.held(&live, 0), "b3");
    assert_eq!(disk.files.len(), 1);
    assert_eq!(w.live_size(), 2);
}
