use npns::fs::file_list::{FileEntry, FileKind, FileList as EntryList, Metadata};
use npns::fs_info::clipboard::Clipboard;
use npns::fs_info::duplicate_handler::{
    handle_dir_duplicate, handle_file_duplicate, ApplyToAll, ConflictStep, DirConflictResult,
    DuplicatedFileHandleOps, FileConflictResult,
};
use npns::fs_info::file_info::FileInfo;
use npns::fs_info::file_list::FileList;
use npns::fs_info::operations::{OperationFS, OperationUnitFS};
use npns::fs_info::state::{FileSysState, StateFlag};
use npns::ui::screen::heapless;

fn meta(dir: bool, link: bool, len: u64) -> Metadata {
    Metadata {
        is_symlink: link,
        is_dir: dir,
        is_fifo: false,
        is_char_device: false,
        is_block_device: false,
        is_socket: false,
        len,
    }
}

fn info(name: &str, dir: bool) -> FileInfo {
    FileInfo::new(name.to_string(), format!("/w/{}", name), 1, dir)
}

fn names(l: &FileList) -> Vec<String> {
    l.files().iter().map(|f| f.name().to_string()).collect()
}

#[test]
fn entries_take_their_kind_from_metadata() {
    let e = FileEntry::from_metadata("/w/a".to_string(), Some(meta(false, false, 7)));
    assert_eq!((e.is_dir, e.size, e.kind), (false, 7, FileKind::File));
    let link = FileEntry::from_metadata("/w/l".to_string(), Some(meta(true, true, 0)));
    assert_eq!(link.kind, FileKind::Link);
    let dir = FileEntry::from_metadata("/w/d".to_string(), Some(meta(true, false, 4096)));
    assert_eq!((dir.is_dir, dir.kind), (true, FileKind::Dir));
    let gone = FileEntry::from_metadata("/w/x".to_string(), None);
    assert_eq!((gone.is_dir, gone.size, gone.kind), (false, 0, FileKind::Unknown));
    let kinds = [
        FileKind::Dir, FileKind::File, FileKind::Link, FileKind::Fifo,
        FileKind::Char, FileKind::Block, FileKind::Socket, FileKind::Unknown,
    ];
    let shown: Vec<&str> = kinds.iter().map(|k| k.as_str()).collect();
    assert_eq!(shown, vec!["DIR", "FILE", "LINK", "FIFO", "CHAR", "BLK", "SOCK", "ERR"]);
}

#[test]
fn entry_list_sorts_directories_first_then_by_name() {
    let mut l = EntryList::new();
    let es = vec![
        FileEntry::from_metadata("/w/b".to_string(), Some(meta(false, false, 1))),
        FileEntry::from_metadata("/w/z".to_string(), Some(meta(true, false, 1))),
        FileEntry::from_metadata("/w/a".to_string(), Some(meta(false, false, 1))),
    ];
    l.load_listing(es, true);
    let paths: Vec<&str> = l.entries().iter().map(|e| e.path.as_str()).collect();
    assert_eq!(paths, vec!["/w/z", "/w/a", "/w/b"]);
    assert_eq!(l.len(), 3);
    assert_eq!(l.get(1).map(|s| s.as_str()), Some("/w/a"));
    assert!(l.get(3).is_none());
    assert_eq!(l.get_selected_file(), Err("No File Selected!".to_string()));
    assert_eq!(l.select(5), Err("SELECTING: index out of bounds 5 >= 3".to_string()));
    assert_eq!(l.select(2), Ok(()));
    assert_eq!(l.get_selected_file().map(|s| s.as_str()), Ok("/w/b"));
    l.deselect();
    assert!(l.get_selected_file().is_err());
    let partial = vec![FileEntry::from_metadata("/w/b".to_string(), None), FileEntry::from_metadata("/w/a".to_string(), None)];
    l.load_listing(partial, false);
    let paths: Vec<&str> = l.entries().iter().map(|e| e.path.as_str()).collect();
    assert_eq!(paths, vec!["/w/b", "/w/a"]);
}

#[test]
fn file_list_sorts_selects_and_reports_out_of_bounds() {
    let mut l = FileList::new();
    l.load_listing(vec![info("b", false), info("c", true), info("a", false), info("B", true)], true);
    assert_eq!(names(&l), vec!["B", "c", "a", "b"]);
    assert_eq!(l.select(4), Err("SELECTING: index out of bounds 4 >= 4".to_string()));
    assert!(l.get_selected_file().is_err());
    assert_eq!(l.select(1), Ok(()));
    assert_eq!(l.get_selected_file().unwrap().name(), "c");
    l.push(info("0", false));
    assert_eq!(l.len(), 5);
    assert_eq!(l.get(4).unwrap().path(), "/w/0");
    l.sort();
    assert_eq!(names(&l), vec!["B", "c", "0", "a", "b"]);
    l.load_listing(vec![info("y", false), info("x", false)], false);
    assert_eq!(names(&l), vec!["y", "x"]);
    assert!(l.get_selected_file().is_err());
}

#[test]
fn file_conflicts_resolve_step_by_step() {
    let free = handle_file_duplicate("/d/a".to_string(), false, None);
    assert!(matches!(free, ConflictStep::Done(FileConflictResult::Proceed { ref dest, handler: DuplicatedFileHandleOps::NoConflict, apply: false }) if dest == "/d/a"));
    assert!(matches!(handle_file_duplicate("/d/a".to_string(), true, None), ConflictStep::Ask(ref p) if p == "/d/a"));
    let renamed = handle_file_duplicate("/d/a".to_string(), true, Some((DuplicatedFileHandleOps::Rename("b".to_string()), true)));
    assert!(matches!(renamed, ConflictStep::Check(ref p) if p == "/d/b"));
    let skip = handle_file_duplicate("/d/a".to_string(), true, Some((DuplicatedFileHandleOps::Skip, true)));
    assert!(matches!(skip, ConflictStep::Done(FileConflictResult::Skip { apply: true })));
    let cancel = handle_file_duplicate("/d/a".to_string(), true, Some((DuplicatedFileHandleOps::Cancel, false)));
    assert!(matches!(cancel, ConflictStep::Done(FileConflictResult::Cancel)));
    let over = handle_file_duplicate("/d/a".to_string(), true, Some((DuplicatedFileHandleOps::Overwrite, false)));
    assert!(matches!(over, ConflictStep::Done(FileConflictResult::Proceed { handler: DuplicatedFileHandleOps::Overwrite, apply: false, .. })));
    let root = handle_file_duplicate("/".to_string(), true, Some((DuplicatedFileHandleOps::Rename("b".to_string()), false)));
    assert!(matches!(root, ConflictStep::Done(FileConflictResult::Cancel)));
}

#[test]
fn dir_conflicts_resolve_step_by_step() {
    let write_in = handle_dir_duplicate("/d/s".to_string(), true, Some((DuplicatedFileHandleOps::WriteIn, true)));
    assert!(matches!(write_in, ConflictStep::Done(DirConflictResult::Proceed { ref dest, handler: DuplicatedFileHandleOps::WriteIn, apply: true }) if dest == "/d/s"));
    let renamed = handle_dir_duplicate("/d/s".to_string(), true, Some((DuplicatedFileHandleOps::Rename("t".to_string()), false)));
    assert!(matches!(renamed, ConflictStep::Check(ref p) if p == "/d/t"));
    assert!(matches!(handle_dir_duplicate("/d/s".to_string(), false, None), ConflictStep::Done(DirConflictResult::Proceed { .. })));
    let skip = handle_dir_duplicate("/d/s".to_string(), true, Some((DuplicatedFileHandleOps::Skip, false)));
    assert!(matches!(skip, ConflictStep::Done(DirConflictResult::Skip { apply: false })));
}

#[test]
fn apply_to_all_answers_only_its_own_kind() {
    let mut a = ApplyToAll::No;
    assert!(a.get(false).is_none());
    a.update(&DuplicatedFileHandleOps::Overwrite, true, false);
    assert!(matches!(a.get(false), Some(DuplicatedFileHandleOps::Overwrite)));
    assert!(a.get(true).is_none());
    a.update(&DuplicatedFileHandleOps::WriteIn, true, true);
    assert!(matches!(a.get(true), Some(DuplicatedFileHandleOps::WriteIn)));
    assert!(a.get(false).is_none());
    a.update(&DuplicatedFileHandleOps::Rename("n".to_string()), true, true);
    assert!(a.get(true).is_none() && a.get(false).is_none());
    a.update(&DuplicatedFileHandleOps::Skip, false, false);
    assert!(a.get(false).is_none());
}

#[test]
fn clipboard_state_and_records_hold_what_was_set() {
    let mut c = Clipboard::new();
    assert!(c.get().is_none());
    c.set("/w/a".to_string(), false);
    assert_eq!(c.get(), Some(&("/w/a".to_string(), false)));
    let mut s = FileSysState::new();
    assert_eq!((s.flag(), s.info()), (StateFlag::Operating, "Initializing"));
    s.set(StateFlag::Error, "bad".to_string());
    assert_eq!((s.flag(), s.info()), (StateFlag::Error, "bad"));
    let u = OperationUnitFS::new(OperationFS::Move, "/a".to_string(), "/b".to_string());
    assert_eq!((u.operation, u.file_source.as_str(), u.file_destiny.as_str()), (OperationFS::Move, "/a", "/b"));
}

#[test]
fn fixed_vector_refuses_items_past_its_capacity() {
    let mut v: heapless::Vec<&str, 2> = heapless::Vec::new();
    assert!(v.is_empty());
    assert_eq!(v.push("1"), Ok(()));
    assert_eq!(v.push("31"), Ok(()));
    assert_eq!(v.push("7"), Err(()));
    assert!(!v.is_empty());
    assert_eq!(v.join(";"), "1;31");
}

#[test]
fn sorting_keeps_the_order_of_equal_keys() {
    let mut l = FileList::new();
    let a = FileInfo::new("x".to_string(), "/p/x".to_string(), 1, false);
    let b = FileInfo::new("x".to_string(), "/q/x".to_string(), 2, false);
    let c = FileInfo::new("d".to_string(), "/q/d".to_string(), 3, true);
    l.load_listing(vec![a, c, b], true);
    let paths: Vec<&str> = l.files().iter().map(|f| f.path().as_str()).collect();
    assert_eq!(paths, vec!["/q/d", "/p/x", "/q/x"]);
    let a = FileInfo::new("x".to_string(), "/p/x".to_string(), 1, false);
    let b = FileInfo::new("x".to_string(), "/q/x".to_string(), 2, false);
    l.load_listing(vec![b, a], true);
    let paths: Vec<&str> = l.files().iter().map(|f| f.path().as_str()).collect();
    assert_eq!(paths, vec!["/q/x", "/p/x"]);
}
