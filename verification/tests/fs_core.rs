use std::collections::{BTreeMap, VecDeque};
use std::path::Path;

use npns::fs_info::duplicate_handler::DuplicatedFileHandleOps;
use npns::fs_info::file_info::FileInfo;
use npns::fs_info::fs_core::{DirItem, Effect, Event, FileSystemCore};
use npns::fs_info::history::History;
use npns::fs_info::operations::OperationFS;
use npns::fs_info::state::StateFlag;

/// A file system in memory: each path, and whether it is a directory.
struct FakeFs {
    nodes: BTreeMap<String, bool>,
    answers: VecDeque<(DuplicatedFileHandleOps, bool)>,
    log: Vec<String>,
}

fn parent_of(p: &str) -> Option<String> {
    Path::new(p).parent().map(|q| q.to_string_lossy().into_owned())
}

fn name_of(p: &str) -> String {
    Path::new(p).file_name().map(|n| n.to_string_lossy().into_owned()).unwrap_or_default()
}

impl FakeFs {
    fn new(dirs: &[&str], files: &[&str]) -> Self {
        let mut nodes = BTreeMap::new();
        for d in dirs {
            nodes.insert(d.to_string(), true);
        }
        for f in files {
            nodes.insert(f.to_string(), false);
        }
        FakeFs { nodes, answers: VecDeque::new(), log: Vec::new() }
    }

    fn children(&self, dir: &str) -> Vec<(String, String, bool)> {
        self.nodes
            .iter()
            .filter(|(p, _)| parent_of(p).as_deref() == Some(dir) && p.as_str() != dir)
            .map(|(p, d)| (p.clone(), name_of(p), *d))
            .collect()
    }

    fn subtree(&self, root: &str) -> Vec<String> {
        let prefix = format!("{}/", root);
        self.nodes
            .keys()
            .filter(|p| p.as_str() == root || p.starts_with(&prefix))
            .cloned()
            .collect()
    }

    fn perform(&mut self, eff: &Effect) -> Option<Event> {
        match eff {
            Effect::Done => None,
            Effect::Continue => Some(Event::Go),
            Effect::List(p) => {
                self.log.push(format!("list {}", p));
                let items = self
                    .children(p)
                    .into_iter()
                    .map(|(path, name, d)| FileInfo::new(name, path, 0, d))
                    .collect();
                Some(Event::Listing(items, None))
            },
            Effect::Probe(p) => {
                let found = self.nodes.get(p.as_str()).copied();
                Some(Event::Probe(found.is_some(), found.unwrap_or(false)))
            },
            Effect::Create(p, d) => {
                self.log.push(format!("create {}", p));
                self.nodes.insert(p.clone(), *d);
                Some(Event::Outcome(Ok(())))
            },
            Effect::CreateAll(p) => {
                self.log.push(format!("mkdirs {}", p));
                let mut cur = Some(p.clone());
                while let Some(c) = cur {
                    if c.is_empty() {
                        break;
                    }
                    self.nodes.entry(c.clone()).or_insert(true);
                    cur = parent_of(&c);
                }
                Some(Event::Outcome(Ok(())))
            },
            Effect::Copy(a, b) => {
                self.log.push(format!("copy {} {}", a, b));
                if self.nodes.get(a.as_str()) == Some(&false) {
                    self.nodes.insert(b.clone(), false);
                    Some(Event::Outcome(Ok(())))
                } else {
                    Some(Event::Outcome(Err("No such file or directory".to_string())))
                }
            },
            Effect::Move(a, b) => {
                self.log.push(format!("move {} {}", a, b));
                let moved = self.subtree(a);
                if moved.is_empty() {
                    return Some(Event::Outcome(Err("No such file or directory".to_string())));
                }
                for p in moved {
                    let d = self.nodes.remove(&p).unwrap();
                    let q = format!("{}{}", b, &p[a.len()..]);
                    self.nodes.insert(q, d);
                }
                Some(Event::Outcome(Ok(())))
            },
            Effect::Remove(p, _) => {
                self.log.push(format!("remove {}", p));
                for q in self.subtree(p) {
                    self.nodes.remove(&q);
                }
                Some(Event::Outcome(Ok(())))
            },
            Effect::RemoveDir(p) => {
                self.log.push(format!("rmdir {}", p));
                if self.children(p).is_empty() {
                    self.nodes.remove(p.as_str());
                    Some(Event::Outcome(Ok(())))
                } else {
                    Some(Event::Outcome(Err("Directory not empty".to_string())))
                }
            },
            Effect::ReadDir(p) => {
                self.log.push(format!("readdir {}", p));
                if self.nodes.get(p.as_str()) != Some(&true) {
                    return Some(Event::Entries(None));
                }
                let items = self
                    .children(p)
                    .into_iter()
                    .map(|(path, name, is_dir)| DirItem::Entry { path, name, is_dir })
                    .collect();
                Some(Event::Entries(Some(items)))
            },
            Effect::Ask(p, d) => {
                self.log.push(format!("ask {} {}", p, d));
                let (h, a) = self.answers.pop_front().expect("an answer");
                Some(Event::Answer(h, a))
            },
        }
    }
}

fn drive(core: &mut FileSystemCore, fs: &mut FakeFs, first: Effect) {
    let mut eff = first;
    let mut steps = 0;
    while let Some(ev) = fs.perform(&eff) {
        eff = core.resume(ev);
        steps += 1;
        assert!(steps < 10_000, "the operation does not end");
    }
    assert!(core.is_idle());
}

fn start(dir: &str, fs: &mut FakeFs) -> FileSystemCore {
    let (mut core, first) = FileSystemCore::init(dir.to_string(), History::with_path("/tmp/h".to_string(), true));
    drive(&mut core, fs, first);
    core
}

fn names(core: &FileSystemCore) -> Vec<String> {
    core.files().iter().map(|f| f.name().to_string()).collect()
}

fn index_of(core: &FileSystemCore, name: &str) -> usize {
    core.files().iter().position(|f| f.name() == name).unwrap()
}

fn last_ops(core: &FileSystemCore) -> Vec<(OperationFS, String, String)> {
    core.history()
        .log()
        .iter()
        .map(|u| (u.operation, u.file_source.clone(), u.file_destiny.clone()))
        .collect()
}

#[test]
fn init_lists_directories_first_then_by_name() {
    let mut fs = FakeFs::new(&["/w", "/w/zdir"], &["/w/b.txt", "/w/a.txt"]);
    let core = start("/w", &mut fs);
    assert_eq!(names(&core), vec!["zdir", "a.txt", "b.txt"]);
    assert_eq!(core.state_flag(), StateFlag::Ready);
    assert_eq!(core.state_info(), "Ready");
    assert_eq!(core.current_dir(), "/w");
}

#[test]
fn failed_listing_keeps_what_was_read() {
    let mut fs = FakeFs::new(&["/w"], &[]);
    let mut core = start("/w", &mut fs);
    let eff = core.refresh();
    assert!(matches!(eff, Effect::List(ref p) if p == "/w"));
    let part = vec![
        FileInfo::new("b".to_string(), "/w/b".to_string(), 1, false),
        FileInfo::new("a".to_string(), "/w/a".to_string(), 1, false),
    ];
    let next = core.resume(Event::Listing(part, Some("Permission denied".to_string())));
    assert!(matches!(next, Effect::Continue));
    assert!(matches!(core.resume(Event::Go), Effect::Done));
    assert_eq!(names(&core), vec!["b", "a"]);
    assert_eq!(core.state_flag(), StateFlag::Error);
    assert_eq!(core.state_info(), "Loading Dir: Permission denied");
}

#[test]
fn copy_needs_a_selection() {
    let mut fs = FakeFs::new(&["/w"], &["/w/a.txt"]);
    let mut core = start("/w", &mut fs);
    core.copy_selected(true);
    assert_eq!(core.state_flag(), StateFlag::Error);
    assert_eq!(core.state_info(), "Copy/Cut File: No File Selected!");
    core.select(0).unwrap();
    core.copy_selected(false);
    assert_eq!(core.state_info(), "Cut: a.txt");
    core.copy_selected(true);
    assert_eq!(core.state_info(), "Copied: a.txt");
}

#[test]
fn select_past_the_end_is_refused() {
    let mut fs = FakeFs::new(&["/w"], &["/w/a.txt"]);
    let mut core = start("/w", &mut fs);
    assert_eq!(core.select(3), Err("SELECTING: index out of bounds 3 >= 1".to_string()));
}

#[test]
fn paste_with_empty_clipboard_stops() {
    let mut fs = FakeFs::new(&["/w"], &[]);
    let mut core = start("/w", &mut fs);
    let eff = core.paste();
    assert!(matches!(eff, Effect::Done));
    assert_eq!(core.state_flag(), StateFlag::Error);
    assert_eq!(core.state_info(), "Get From Clipboard: Clipboard is empty");
}

fn copy_entry(core: &mut FileSystemCore, name: &str, is_copy: bool) {
    let i = index_of(core, name);
    core.select(i).unwrap();
    core.copy_selected(is_copy);
}

fn enter(core: &mut FileSystemCore, fs: &mut FakeFs, name: &str) {
    let i = index_of(core, name);
    core.select(i).unwrap();
    let eff = core.enter_selected();
    drive(core, fs, eff);
}

#[test]
fn paste_copies_a_file_and_undo_removes_the_copy() {
    let mut fs = FakeFs::new(&["/w", "/w/d"], &["/w/f.txt"]);
    let mut core = start("/w", &mut fs);
    copy_entry(&mut core, "f.txt", true);
    enter(&mut core, &mut fs, "d");
    assert_eq!(core.state_info(), "Entered: d");
    assert_eq!(core.current_dir(), "/w/d");
    let eff = core.paste();
    drive(&mut core, &mut fs, eff);
    assert!(fs.nodes.contains_key("/w/d/f.txt"));
    assert!(fs.nodes.contains_key("/w/f.txt"));
    assert_eq!(names(&core), vec!["f.txt"]);
    assert_eq!(core.state_info(), "Ready");
    assert_eq!(
        last_ops(&core).last().unwrap(),
        &(OperationFS::Copy, "/w/f.txt".to_string(), "/w/d/f.txt".to_string())
    );
    let eff = core.undo();
    drive(&mut core, &mut fs, eff);
    assert!(!fs.nodes.contains_key("/w/d/f.txt"));
    assert_eq!(core.state_flag(), StateFlag::Ready);
    assert_eq!(core.state_info(), "Undone");
}

#[test]
fn paste_moves_a_file_and_undo_moves_it_back() {
    let mut fs = FakeFs::new(&["/w", "/w/d"], &["/w/f.txt"]);
    let mut core = start("/w", &mut fs);
    copy_entry(&mut core, "f.txt", false);
    enter(&mut core, &mut fs, "d");
    let eff = core.paste();
    drive(&mut core, &mut fs, eff);
    assert!(fs.nodes.contains_key("/w/d/f.txt"));
    assert!(!fs.nodes.contains_key("/w/f.txt"));
    let eff = core.undo();
    drive(&mut core, &mut fs, eff);
    assert!(fs.nodes.contains_key("/w/f.txt"));
    assert!(!fs.nodes.contains_key("/w/d/f.txt"));
    assert!(fs.log.contains(&"mkdirs /w".to_string()));
    assert_eq!(core.state_info(), "Undone");
}

#[test]
fn paste_conflict_rename_asks_and_takes_the_new_name() {
    let mut fs = FakeFs::new(&["/w"], &["/w/f.txt"]);
    let mut core = start("/w", &mut fs);
    copy_entry(&mut core, "f.txt", true);
    fs.answers.push_back((DuplicatedFileHandleOps::Rename("g.txt".to_string()), true));
    let eff = core.paste();
    drive(&mut core, &mut fs, eff);
    assert!(fs.log.contains(&"ask /w/f.txt false".to_string()));
    assert!(fs.nodes.contains_key("/w/g.txt"));
    assert_eq!(names(&core), vec!["f.txt", "g.txt"]);
}

#[test]
fn paste_conflict_rename_that_collides_asks_again() {
    let mut fs = FakeFs::new(&["/w"], &["/w/f.txt", "/w/g.txt"]);
    let mut core = start("/w", &mut fs);
    copy_entry(&mut core, "f.txt", true);
    fs.answers.push_back((DuplicatedFileHandleOps::Rename("g.txt".to_string()), false));
    fs.answers.push_back((DuplicatedFileHandleOps::Rename("h.txt".to_string()), false));
    let eff = core.paste();
    drive(&mut core, &mut fs, eff);
    assert!(fs.log.contains(&"ask /w/g.txt false".to_string()));
    assert!(fs.nodes.contains_key("/w/h.txt"));
}

#[test]
fn paste_conflict_skip_and_cancel_copy_nothing() {
    for answer in [DuplicatedFileHandleOps::Skip, DuplicatedFileHandleOps::Cancel] {
        let mut fs = FakeFs::new(&["/w"], &["/w/f.txt"]);
        let mut core = start("/w", &mut fs);
        copy_entry(&mut core, "f.txt", true);
        fs.answers.push_back((answer, false));
        let eff = core.paste();
        drive(&mut core, &mut fs, eff);
        assert!(!fs.log.iter().any(|l| l.starts_with("copy")));
        assert_eq!(core.state_info(), "Ready");
    }
}

#[test]
fn paste_overwrite_records_a_removal_that_cannot_be_undone() {
    let mut fs = FakeFs::new(&["/w", "/w/d"], &["/w/f.txt", "/w/d/f.txt"]);
    let mut core = start("/w", &mut fs);
    copy_entry(&mut core, "f.txt", true);
    enter(&mut core, &mut fs, "d");
    fs.answers.push_back((DuplicatedFileHandleOps::Overwrite, false));
    let eff = core.paste();
    drive(&mut core, &mut fs, eff);
    let ops = last_ops(&core);
    let n = ops.len();
    assert_eq!(ops[n - 2], (OperationFS::Remove, "/w/d/f.txt".to_string(), String::new()));
    assert_eq!(ops[n - 1], (OperationFS::Copy, "/w/f.txt".to_string(), "/w/d/f.txt".to_string()));
    let eff = core.undo();
    drive(&mut core, &mut fs, eff);
    assert_eq!(core.state_info(), "Undone");
    let eff = core.undo();
    drive(&mut core, &mut fs, eff);
    assert_eq!(core.state_flag(), StateFlag::Error);
    assert_eq!(core.state_info(), "Cannot undo remove operation (not recoverable)");
}

#[test]
fn new_file_refuses_an_existing_name() {
    let mut fs = FakeFs::new(&["/w"], &["/w/a.txt"]);
    let mut core = start("/w", &mut fs);
    let eff = core.new_file("a.txt", false);
    drive(&mut core, &mut fs, eff);
    assert_eq!(core.state_flag(), StateFlag::Error);
    assert_eq!(core.state_info(), "a.txt already exists");
}

#[test]
fn new_directory_is_created_and_undone() {
    let mut fs = FakeFs::new(&["/w"], &[]);
    let mut core = start("/w", &mut fs);
    let eff = core.new_file("sub", true);
    drive(&mut core, &mut fs, eff);
    assert_eq!(fs.nodes.get("/w/sub"), Some(&true));
    assert_eq!(names(&core), vec!["sub"]);
    assert_eq!(
        last_ops(&core).last().unwrap(),
        &(OperationFS::New, String::new(), "/w/sub".to_string())
    );
    let eff = core.undo();
    drive(&mut core, &mut fs, eff);
    assert!(!fs.nodes.contains_key("/w/sub"));
    assert_eq!(core.state_info(), "Undone");
}

#[test]
fn rename_and_undo_restore_the_name() {
    let mut fs = FakeFs::new(&["/w"], &["/w/a.txt"]);
    let mut core = start("/w", &mut fs);
    core.select(0).unwrap();
    let eff = core.rename_selected("c.txt");
    assert!(matches!(eff, Effect::Move(ref a, ref b) if a == "/w/a.txt" && b == "/w/c.txt"));
    drive(&mut core, &mut fs, eff);
    assert_eq!(names(&core), vec!["c.txt"]);
    let eff = core.undo();
    drive(&mut core, &mut fs, eff);
    assert_eq!(names(&core), vec!["a.txt"]);
    assert_eq!(core.state_info(), "Undone");
}

#[test]
fn rename_without_selection_is_refused() {
    let mut fs = FakeFs::new(&["/w"], &["/w/a.txt"]);
    let mut core = start("/w", &mut fs);
    let eff = core.rename_selected("c.txt");
    assert!(matches!(eff, Effect::Done));
    assert_eq!(core.state_info(), "Rename: No File Selected!");
}

#[test]
fn undo_without_history_is_refused() {
    let mut fs = FakeFs::new(&["/w"], &[]);
    let mut core = start("/w", &mut fs);
    let eff = core.undo();
    drive(&mut core, &mut fs, eff);
    assert_eq!(core.state_info(), "Nothing to undo");
    let (mut off, first) = FileSystemCore::init("/w".to_string(), History::new(None, false));
    drive(&mut off, &mut fs, first);
    let eff = off.undo();
    drive(&mut off, &mut fs, eff);
    assert_eq!(off.state_flag(), StateFlag::Error);
    assert_eq!(off.state_info(), "Undo Not Available!");
}

#[test]
fn parent_dir_moves_up_and_undo_comes_back() {
    let mut fs = FakeFs::new(&["/", "/w", "/w/d"], &[]);
    let mut core = start("/w/d", &mut fs);
    let eff = core.parent_dir();
    drive(&mut core, &mut fs, eff);
    assert_eq!(core.current_dir(), "/w");
    assert_eq!(core.state_info(), "Moved to parent directory");
    let lists = fs.log.iter().filter(|l| l.starts_with("list")).count();
    let eff = core.undo();
    drive(&mut core, &mut fs, eff);
    assert_eq!(core.current_dir(), "/w/d");
    assert_eq!(core.state_info(), "Undone");
    assert_eq!(fs.log.iter().filter(|l| l.starts_with("list")).count(), lists + 2);
}

#[test]
fn parent_dir_at_root_is_refused() {
    let mut fs = FakeFs::new(&["/"], &[]);
    let mut core = start("/", &mut fs);
    let eff = core.parent_dir();
    assert!(matches!(eff, Effect::Done));
    assert_eq!(core.state_info(), "Already at root directory");
}

#[test]
fn enter_refuses_files_and_missing_targets() {
    let mut fs = FakeFs::new(&["/w", "/w/d"], &["/w/a.txt"]);
    let mut core = start("/w", &mut fs);
    let eff = core.enter_selected();
    assert!(matches!(eff, Effect::Done));
    assert_eq!(core.state_info(), "No File Selected!");
    core.select(index_of(&core, "a.txt")).unwrap();
    let eff = core.enter_selected();
    assert!(matches!(eff, Effect::Done));
    assert_eq!(core.state_info(), "Selected item is not a directory");
    core.select(index_of(&core, "d")).unwrap();
    fs.nodes.remove("/w/d");
    let eff = core.enter_selected();
    drive(&mut core, &mut fs, eff);
    assert_eq!(core.state_flag(), StateFlag::Error);
    assert_eq!(core.state_info(), "Failed to enter directory: Target path does not exist");
}

#[test]
fn paste_directory_copies_its_tree_and_undo_removes_it() {
    let mut fs = FakeFs::new(&["/", "/src", "/src/dir", "/src/dir/sub", "/w"], &["/src/dir/x", "/src/dir/sub/z"]);
    let mut core = start("/src", &mut fs);
    copy_entry(&mut core, "dir", true);
    let eff = core.parent_dir();
    drive(&mut core, &mut fs, eff);
    enter(&mut core, &mut fs, "w");
    let eff = core.paste();
    drive(&mut core, &mut fs, eff);
    for p in ["/w/dir", "/w/dir/sub", "/w/dir/sub/z", "/w/dir/x"] {
        assert!(fs.nodes.contains_key(p), "{}", p);
    }
    let ops: Vec<OperationFS> = last_ops(&core).iter().map(|o| o.0).collect();
    let n = ops.len();
    assert_eq!(ops[n - 1], OperationFS::EndRange);
    assert!(ops.contains(&OperationFS::StartRange));
    let eff = core.undo();
    drive(&mut core, &mut fs, eff);
    assert!(!fs.nodes.contains_key("/w/dir"));
    assert!(fs.nodes.contains_key("/src/dir/x"));
    assert_eq!(core.state_info(), "Undone");
    assert!(!core.history().log().iter().any(|u| u.operation == OperationFS::StartRange));
}

#[test]
fn paste_directory_applies_an_answer_to_all_files() {
    let mut fs = FakeFs::new(
        &["/", "/src", "/src/dir", "/w", "/w/dir"],
        &["/src/dir/x", "/src/dir/y", "/w/dir/x", "/w/dir/y"],
    );
    let mut core = start("/src", &mut fs);
    copy_entry(&mut core, "dir", true);
    let eff = core.parent_dir();
    drive(&mut core, &mut fs, eff);
    enter(&mut core, &mut fs, "w");
    fs.answers.push_back((DuplicatedFileHandleOps::WriteIn, false));
    fs.answers.push_back((DuplicatedFileHandleOps::Skip, true));
    let eff = core.paste();
    drive(&mut core, &mut fs, eff);
    let asks: Vec<&String> = fs.log.iter().filter(|l| l.starts_with("ask")).collect();
    assert_eq!(asks, vec!["ask /w/dir true", "ask /w/dir/x false"]);
    assert!(!fs.log.contains(&"copy /src/dir/x /w/dir/x".to_string()));
    // A stored answer is taken as the handler of the next file conflict,
    // and the file then goes on to be copied.
    assert!(fs.log.contains(&"copy /src/dir/y /w/dir/y".to_string()));
}

#[test]
fn moved_directory_source_is_removed() {
    let mut fs = FakeFs::new(&["/", "/src", "/src/dir", "/w"], &["/src/dir/x"]);
    let mut core = start("/src", &mut fs);
    copy_entry(&mut core, "dir", false);
    let eff = core.parent_dir();
    drive(&mut core, &mut fs, eff);
    enter(&mut core, &mut fs, "w");
    let eff = core.paste();
    drive(&mut core, &mut fs, eff);
    assert!(fs.nodes.contains_key("/w/dir/x"));
    assert!(!fs.nodes.contains_key("/src/dir"));
    assert!(fs.log.contains(&"rmdir /src/dir".to_string()));
}

#[test]
fn unreadable_source_directory_is_undone() {
    let mut fs = FakeFs::new(&["/", "/src", "/src/dir", "/w"], &[]);
    let mut core = start("/src", &mut fs);
    copy_entry(&mut core, "dir", true);
    let eff = core.parent_dir();
    drive(&mut core, &mut fs, eff);
    enter(&mut core, &mut fs, "w");
    fs.nodes.remove("/src/dir");
    fs.nodes.insert("/src/dir".to_string(), true);
    let eff = core.paste();
    let mut eff = eff;
    let mut broke = false;
    while let Some(ev) = fs.perform(&eff) {
        let ev = match (&eff, ev) {
            (Effect::ReadDir(_), _) if !broke => {
                broke = true;
                Event::Entries(None)
            },
            (_, ev) => ev,
        };
        eff = core.resume(ev);
    }
    assert!(broke);
    assert!(!fs.nodes.contains_key("/w/dir"));
    assert_eq!(core.state_info(), "Ready");
}

#[test]
fn history_failure_is_reported() {
    let mut fs = FakeFs::new(&["/w"], &[]);
    let mut core = start("/w", &mut fs);
    core.history_failed("disk full");
    assert_eq!(core.state_flag(), StateFlag::Error);
    assert_eq!(core.state_info(), "History record failed: disk full");
}

#[test]
fn failed_paste_into_an_existing_directory_keeps_its_content() {
    let mut fs = FakeFs::new(
        &["/", "/src", "/src/dir", "/src/dir/sub", "/w", "/w/dir"],
        &["/src/dir/x", "/src/dir/y", "/src/dir/sub/z", "/w/dir/old"],
    );
    let mut core = start("/src", &mut fs);
    copy_entry(&mut core, "dir", true);
    let eff = core.parent_dir();
    drive(&mut core, &mut fs, eff);
    enter(&mut core, &mut fs, "w");
    fs.answers.push_back((DuplicatedFileHandleOps::WriteIn, false));
    let mut eff = core.paste();
    loop {
        let ev = match &eff {
            Effect::Copy(a, _) if a == "/src/dir/y" => Event::Outcome(Err("disk full".to_string())),
            _ => match fs.perform(&eff) {
                Some(ev) => ev,
                None => break,
            },
        };
        eff = core.resume(ev);
    }
    assert!(core.is_idle());
    assert!(fs.log.contains(&"copy /src/dir/x /w/dir/x".to_string()));
    assert!(fs.log.contains(&"remove /w/dir/sub".to_string()));
    assert!(!fs.log.contains(&"remove /w/dir".to_string()));
    assert!(fs.nodes.contains_key("/w/dir"));
    assert!(fs.nodes.contains_key("/w/dir/old"));
    for gone in ["/w/dir/x", "/w/dir/y", "/w/dir/sub", "/w/dir/sub/z"] {
        assert!(!fs.nodes.contains_key(gone), "{}", gone);
    }
}

#[test]
fn copied_subdirectory_is_recorded_as_created() {
    let mut fs = FakeFs::new(&["/", "/src", "/src/dir", "/src/dir/sub", "/w"], &[]);
    let mut core = start("/src", &mut fs);
    copy_entry(&mut core, "dir", true);
    let eff = core.parent_dir();
    drive(&mut core, &mut fs, eff);
    enter(&mut core, &mut fs, "w");
    let eff = core.paste();
    drive(&mut core, &mut fs, eff);
    assert!(last_ops(&core).contains(&(OperationFS::New, String::new(), "/w/dir/sub".to_string())));
}

#[test]
fn removal_is_recorded_and_cannot_be_undone() {
    let mut fs = FakeFs::new(&["/w", "/w/d"], &["/w/d/f", "/w/a"]);
    let mut core = start("/w", &mut fs);
    let eff = core.remove_selected();
    assert!(matches!(eff, Effect::Done));
    assert_eq!(core.state_info(), "Remove: No File Selected!");
    core.select(index_of(&core, "d")).unwrap();
    let eff = core.remove_selected();
    drive(&mut core, &mut fs, eff);
    assert!(!fs.nodes.contains_key("/w/d") && !fs.nodes.contains_key("/w/d/f"));
    assert_eq!(names(&core), vec!["a"]);
    assert_eq!(last_ops(&core).last().unwrap(), &(OperationFS::Remove, "/w/d".to_string(), String::new()));
    let eff = core.undo();
    drive(&mut core, &mut fs, eff);
    assert_eq!(core.state_info(), "Cannot undo remove operation (not recoverable)");
}

#[test]
fn failed_move_into_an_existing_directory_moves_everything_back() {
    let mut fs = FakeFs::new(
        &["/", "/src", "/src/dir", "/src/dir/sub", "/w", "/w/dir"],
        &["/src/dir/x", "/src/dir/y", "/src/dir/sub/z", "/w/dir/old"],
    );
    let mut core = start("/src", &mut fs);
    copy_entry(&mut core, "dir", false);
    let eff = core.parent_dir();
    drive(&mut core, &mut fs, eff);
    enter(&mut core, &mut fs, "w");
    fs.answers.push_back((DuplicatedFileHandleOps::WriteIn, false));
    let mut eff = core.paste();
    loop {
        let ev = match &eff {
            Effect::Move(a, _) if a == "/src/dir/y" => Event::Outcome(Err("busy".to_string())),
            _ => match fs.perform(&eff) {
                Some(ev) => ev,
                None => break,
            },
        };
        eff = core.resume(ev);
    }
    assert!(core.is_idle());
    assert!(fs.log.contains(&"move /src/dir/x /w/dir/x".to_string()));
    for back in ["/src/dir/x", "/src/dir/y", "/src/dir/sub/z", "/w/dir", "/w/dir/old"] {
        assert!(fs.nodes.contains_key(back), "{}", back);
    }
    for gone in ["/w/dir/x", "/w/dir/sub", "/w/dir/sub/z"] {
        assert!(!fs.nodes.contains_key(gone), "{}", gone);
    }
}
