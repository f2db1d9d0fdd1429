//! The file system core: the current directory, its listing, the state
//! shown to the user, the clipboard and the undo history.
//!
//! Every operation that touches the file system runs as a sequence of
//! steps: the core asks for one piece of outside work (an `Effect`), the
//! caller performs it and hands back what happened (an `Event`), and the
//! core decides the next step with `resume`. The pending steps of nested
//! operations are kept on a stack of frames.
use vstd::prelude::*;

use crate::fs::file_list::{no_selection_msg, out_of_bounds_msg};
use crate::fs::order::listing_sorted;
use crate::fs_info::clipboard::Clipboard;
use crate::fs_info::duplicate_handler::{
    dir_step_matches,
    file_step_matches,
    resolve_step,
    Resolution,
    handle_dir_duplicate,
    handle_file_duplicate,
    ApplyToAll,
    ConflictStep,
    DirConflictResult,
    DuplicatedFileHandleOps,
    FileConflictResult,
    PasteAbort,
};
use crate::fs_info::file_info::FileInfo;
use crate::fs_info::file_list::FileList;
use crate::fs_info::history::History;
use crate::fs_info::operations::{OperationFS, OperationUnitFS};
use crate::fs_info::state::{FileSysState, StateFlag};
use crate::path::{file_name, join, parent, std_file_name, std_join, std_parent};

verus! {

/// Outside work the core asks for.
pub enum Effect {
    /// List the directory; answered by `Event::Listing`.
    List(String),
    /// Whether the path exists and is a directory; answered by `Event::Probe`.
    Probe(String),
    /// Create a directory (`true`) or an empty file; answered by `Event::Outcome`.
    Create(String, bool),
    /// Create a directory and its missing parents; answered by `Event::Outcome`.
    CreateAll(String),
    /// Copy a file to a destination; answered by `Event::Outcome`.
    Copy(String, String),
    /// Move (rename) a path to a destination; answered by `Event::Outcome`.
    Move(String, String),
    /// Remove a path, a directory with its content (`true`); answered by
    /// `Event::Outcome`.
    Remove(String, bool),
    /// Remove an empty directory; answered by `Event::Outcome`.
    RemoveDir(String),
    /// Read the entries of a directory; answered by `Event::Entries`.
    ReadDir(String),
    /// Ask the user how to resolve a conflict on a path, for a directory
    /// (`true`) or a file; answered by `Event::Answer`.
    Ask(String, bool),
    /// Nothing to do: answer with `Event::Go`.
    Continue,
    /// The operation is over.
    Done,
}

/// One entry read from a directory, or the error met in its place.
pub enum DirItem {
    Entry { path: String, name: String, is_dir: bool },
    /// The entry could not be read.
    EntryError(String),
    /// The type of the entry could not be read.
    TypeError(String),
}

/// What the caller hands back after performing an effect.
pub enum Event {
    /// The files of the directory, and the error that stopped the reading,
    /// if any (the files read before it are kept).
    Listing(Vec<FileInfo>, Option<String>),
    /// Whether the path exists, and whether it is a directory.
    Probe(bool, bool),
    /// How the operation went.
    Outcome(Result<(), String>),
    /// The entries of the directory; `None` when it could not be read.
    Entries(Option<Vec<DirItem>>),
    /// The user's answer to a conflict, and whether it applies to all.
    Answer(DuplicatedFileHandleOps, bool),
    /// Answer to `Effect::Continue`.
    Go,
}

/// What a finished step hands to the step below it.
pub enum Ret {
    Unit,
    Outcome(Result<(), String>),
    File(FileConflictResult),
    Dir(DirConflictResult),
    Abort(Result<(), PasteAbort>),
    Entry(Result<(), PasteAbort>, ApplyToAll),
}

/// A pending step, with what it awaits.
pub enum Frame {
    /// Awaits the listing of the current directory.
    Refresh,
    /// Resolves a conflict on `current`; awaits a probe, or the user's
    /// answer once asked.
    Resolve { current: String, is_dir: bool, asked: bool },
    /// Removal of an existing target: awaits its probe.
    RemoveProbe { path: String },
    /// Removal of an existing target: awaits the removal.
    RemoveWait,
    /// Removal of the selected file: awaits the removal's outcome.
    Removed,
    /// Creation of `dest`: awaits its probe.
    NewFileProbe { name: String, dest: String, is_dir: bool },
    /// Creation of `dest`: awaits the creation.
    NewFileCreate { dest: String, is_dir: bool },
    /// Paste: awaits the probe of the clipboard's path.
    PasteProbe { source: String, is_copy: bool, dest_dir: String },
    /// Paste: awaits the pasted file or directory.
    PasteWait,
    /// Paste of a file: awaits the resolved destination.
    FileResolved { source: String, is_copy: bool },
    /// Paste of a file: awaits the removal of the overwritten target.
    FileRemoved { source: String, dest: String, is_copy: bool },
    /// Paste of a file: awaits the copy or move.
    FileTransfer { source: String, dest: String, is_copy: bool },
    /// Paste of a directory: awaits the resolved destination.
    DirResolved { source: String, is_copy: bool },
    /// Paste of a directory: awaits the creation of its root, which is
    /// `fresh` when it did not exist before.
    DirCreated { source: String, root: String, is_copy: bool, fresh: bool },
    /// Paste of a directory: awaits the pasted content.
    DirPasted { source: String, is_copy: bool },
    /// Paste of a directory moved: awaits the removal of the source.
    DirSourceRemoved,
    /// Paste of a directory's content: awaits its entries. In this paste
    /// and the nested ones, `each` entry is recorded for undo when the
    /// pasted root existed before (no record of the whole tree then).
    Listing { source: String, dest: String, is_copy: bool, each: bool },
    /// Paste of a directory's content: the entries, the next one, and the
    /// apply-to-all state of this directory.
    Walk { dest: String, is_copy: bool, each: bool, apply: ApplyToAll, items: Vec<DirItem>, next: usize },
    /// One entry: awaits the probe of its destination.
    EntryProbe { source: String, dest: String, is_dir: bool, is_copy: bool, each: bool, apply: ApplyToAll },
    /// One entry: awaits the resolved destination.
    EntryResolved { source: String, is_dir: bool, is_copy: bool, each: bool, apply: ApplyToAll },
    /// One file entry: awaits the removal of the overwritten target.
    EntryRemoved { source: String, dest: String, is_copy: bool, each: bool, apply: ApplyToAll },
    /// One file entry: awaits the copy.
    EntryCopy { source: String, dest: String, apply: ApplyToAll },
    /// One file entry: awaits the move of `source` to `dest`, to be
    /// recorded when `each` entry is.
    EntryMove { source: String, dest: String, each: bool, apply: ApplyToAll },
    /// One directory entry: awaits the creation of its destination, which
    /// is `fresh` when it did not exist before.
    EntryDirCreated { source: String, dest: String, is_copy: bool, each: bool, fresh: bool, apply: ApplyToAll },
    /// One directory entry: awaits its pasted content.
    EntrySub { source: String, is_copy: bool, each: bool, apply: ApplyToAll },
    /// One directory entry moved: awaits the removal of the source.
    EntrySourceRemoved { apply: ApplyToAll },
    /// Undo: starts on `Event::Go`.
    UndoStart,
    /// Undo of a record: awaits the probe of its destination.
    UndoProbe { unit: OperationUnitFS },
    /// Undo of a copy or creation: awaits the removal.
    UndoRemove { op: OperationFS },
    /// Undo of a move: awaits the creation of the source's parent.
    UndoParent { unit: OperationUnitFS },
    /// Undo of a move or rename: awaits the move back.
    UndoMoveBack { op: OperationFS },
    /// Undo of a range: undoes the records down to its start.
    UndoRange,
    /// Undo: awaits the final refresh.
    UndoFinish,
    /// Undo of a directory change: awaits the first refresh.
    UndoChangeDir,
    /// Rename: awaits the move.
    RenameMove { from: String, to: String },
    /// Directory change: awaits the probe of the target.
    ChangeDirProbe { target: String },
    /// Directory change: awaits the refresh.
    ChangeDirWait,
    /// Move to the parent: awaits the directory change.
    ParentWait,
    /// Entry into the selected directory: awaits the directory change.
    EnterWait { name: String },
}

/// The file system core.
pub struct FileSystemCore {
    pub current_dir: String,
    pub file_list: FileList,
    pub state: FileSysState,
    pub clipboard: Clipboard,
    pub history: History,
    pub frames: Vec<Frame>,
    pub ret: Ret,
}

/// `prefix` followed by `detail`.
fn message(prefix: &str, detail: &str) -> (m: String)
    ensures
        m@ == prefix@ + detail@,
{
    let mut m = String::from_str(prefix);
    m.append(detail);
    m
}

/// Everything but the state, the frames and the value handed down is as
/// before.
pub open spec fn same_data(o: FileSystemCore, n: FileSystemCore) -> bool {
    &&& n.current_dir == o.current_dir
    &&& n.file_list == o.file_list
    &&& n.clipboard == o.clipboard
    &&& n.history == o.history
}

/// The state shows `flag` and `msg`.
pub open spec fn shows(n: FileSystemCore, flag: StateFlag, msg: Seq<char>) -> bool {
    n.state.flag_view() == flag && n.state.info_view() == msg
}

/// The step is over: `r` is handed to the step below.
pub open spec fn hands_down(n: FileSystemCore, base: Seq<Frame>, r: Ret, eff: Effect) -> bool {
    n.frames@ == base && n.ret == r && eff is Continue
}

/// A refresh starts above `below`: the selection is cleared and the
/// current directory is listed.
pub open spec fn refreshing(o: FileSystemCore, n: FileSystemCore, below: Seq<Frame>, eff: Effect) -> bool {
    &&& n.current_dir == o.current_dir
    &&& n.file_list.files_view() == o.file_list.files_view()
    &&& n.file_list.selected() is None
    &&& n.clipboard == o.clipboard
    &&& n.state == o.state
    &&& n.frames@ == below.push(Frame::Refresh)
    &&& eff matches Effect::List(p) && p@ == o.current_dir@
}

/// The state is as before.
pub open spec fn keeps_state(o: FileSystemCore, n: FileSystemCore) -> bool {
    n.state == o.state
}

/// The directory, its listing, the history and the pending steps are as
/// before.
pub open spec fn same_place(o: FileSystemCore, n: FileSystemCore) -> bool {
    &&& n.current_dir == o.current_dir
    &&& n.file_list == o.file_list
    &&& n.history == o.history
    &&& n.frames == o.frames
}

/// The listing arrived: a complete one is sorted and shown as ready, the
/// part read before an error is kept as read and the error shown.
pub open spec fn step_refreshed(o: FileSystemCore, n: FileSystemCore, base: Seq<Frame>, items: Seq<FileInfo>, err: Option<String>, eff: Effect) -> bool {
    &&& n.current_dir == o.current_dir
    &&& n.clipboard == o.clipboard
    &&& n.history == o.history
    &&& n.file_list.selected() is None
    &&& hands_down(n, base, Ret::Unit, eff)
    &&& match err {
        None => listing_sorted(n.file_list.files_view()) && n.file_list.files_view().to_multiset()
            == items.to_multiset() && shows(n, StateFlag::Ready, "Ready"@),
        Some(e) => n.file_list.files_view() == items && shows(n, StateFlag::Error, loading_msg(e@)),
    }
}

/// The message of a failed listing.
pub open spec fn loading_msg(e: Seq<char>) -> Seq<char> {
    "Loading Dir: "@ + e
}

/// The record of an operation on the history.
pub open spec fn record(op: OperationFS, src: Seq<char>, dst: Seq<char>, u: OperationUnitFS) -> bool {
    u.operation == op && u.file_source@ == src && u.file_destiny@ == dst
}

/// The history of `n` is that of `o` with the record pushed.
pub open spec fn pushed(o: FileSystemCore, n: FileSystemCore, op: OperationFS, src: Seq<char>, dst: Seq<char>) -> bool {
    &&& exists|u: OperationUnitFS|
        record(op, src, dst, u) && n.history.log_view() == crate::fs_info::history::push_log(
            o.history.log_view(),
            o.history.available_view(),
            u,
        )
    &&& n.history.available_view() == o.history.available_view()
    &&& n.history.path_view() == o.history.path_view()
}

/// The operation stopped: no frame is left and nothing else changed.
pub open spec fn aborted(o: FileSystemCore, n: FileSystemCore, eff: Effect) -> bool {
    &&& same_data(o, n)
    &&& n.state == o.state
    &&& n.frames@.len() == 0
    &&& eff is Done
}

/// The handed-down value stands for the resolution `r` of a conflict.
pub open spec fn resolved_as(ret: Ret, is_dir: bool, r: Resolution) -> bool {
    if is_dir {
        match (ret, r) {
            (Ret::Dir(DirConflictResult::Proceed { dest, handler, apply }), Resolution::Proceed(d, h, a)) =>
                dest@ == d && handler == h && apply == a,
            (Ret::Dir(DirConflictResult::Skip { apply }), Resolution::Skip(a)) => apply == a,
            (Ret::Dir(DirConflictResult::Cancel), Resolution::Cancel) => true,
            _ => false,
        }
    } else {
        match (ret, r) {
            (Ret::File(FileConflictResult::Proceed { dest, handler, apply }), Resolution::Proceed(d, h, a)) =>
                dest@ == d && handler == h && apply == a,
            (Ret::File(FileConflictResult::Skip { apply }), Resolution::Skip(a)) => apply == a,
            (Ret::File(FileConflictResult::Cancel), Resolution::Cancel) => true,
            _ => false,
        }
    }
}

/// After one step `r` of resolving a conflict: the user is asked about a
/// path, another path is probed, or the resolution is handed down.
pub open spec fn resolve_next(o: FileSystemCore, n: FileSystemCore, base: Seq<Frame>, is_dir: bool, r: Resolution, eff: Effect) -> bool {
    &&& same_data(o, n)
    &&& n.state == o.state
    &&& match r {
        Resolution::Ask(p) => n.frames@.len() == base.len() + 1 && n.frames@.drop_last() =~= base
            && (n.frames@.last() matches Frame::Resolve { current, is_dir: d, asked: true }
            && current@ == p && d == is_dir) && (eff matches Effect::Ask(q, e) && q@ == p && e
            == is_dir),
        Resolution::Check(p) => n.frames@.len() == base.len() + 1 && n.frames@.drop_last()
            =~= base && (n.frames@.last() matches Frame::Resolve { current, is_dir: d, asked: false }
            && current@ == p && d == is_dir) && (eff matches Effect::Probe(q) && q@ == p),
        _ => n.frames@ == base && resolved_as(n.ret, is_dir, r) && eff is Continue,
    }
}

impl FileSystemCore {
    /// The listing and the history are well formed.
    pub open spec fn wf(&self) -> bool {
        &&& self.file_list.inv()
        &&& self.history.wf()
    }

    /// No operation is under way.
    pub open spec fn idle_view(&self) -> bool {
        self.frames@.len() == 0
    }

    pub open spec fn dir_view(&self) -> Seq<char> {
        self.current_dir@
    }

    pub open spec fn files_view(&self) -> Seq<FileInfo> {
        self.file_list.files_view()
    }

    pub open spec fn selected_view(&self) -> Option<usize> {
        self.file_list.selected()
    }

    pub open spec fn flag_view(&self) -> StateFlag {
        self.state.flag_view()
    }

    pub open spec fn info_view(&self) -> Seq<char> {
        self.state.info_view()
    }

    pub open spec fn clipboard_view(&self) -> Option<(String, bool)> {
        self.clipboard.content()
    }

    pub open spec fn history_view(&self) -> History {
        self.history
    }

    /// The pending steps, the last on top.
    pub open spec fn frames_view(&self) -> Seq<Frame> {
        self.frames@
    }

    /// Starts a refresh above the current frames.
    fn start_refresh(&mut self) -> (eff: Effect)
        requires
            old(self).wf(),
        ensures
            final(self).wf(),
            final(self).ret == old(self).ret,
            final(self).history == old(self).history,
            refreshing(*old(self), *final(self), old(self).frames@, eff),
    {
        self.file_list.deselect();
        self.frames.push(Frame::Refresh);
        Effect::List(self.current_dir.clone())
    }

    /// Hands `r` to the step below.
    fn give(&mut self, r: Ret) -> (eff: Effect)
        ensures
            hands_down(*final(self), old(self).frames@, r, eff),
            same_data(*old(self), *final(self)),
            final(self).state == old(self).state,
    {
        self.ret = r;
        Effect::Continue
    }

    /// Shows `flag` and `msg`.
    fn set_state(&mut self, flag: StateFlag, msg: String)
        ensures
            shows(*final(self), flag, msg@),
            same_data(*old(self), *final(self)),
            final(self).frames == old(self).frames,
            final(self).ret == old(self).ret,
    {
        self.state.set(flag, msg);
    }

    /// Records an operation on the history.
    fn push_history(&mut self, op: OperationFS, src: String, dst: String)
        requires
            old(self).wf(),
        ensures
            final(self).wf(),
            exists|u: OperationUnitFS|
                record(op, src@, dst@, u) && final(self).history.log_view()
                    == crate::fs_info::history::push_log(
                    old(self).history.log_view(),
                    old(self).history.available_view(),
                    u,
                ),
            final(self).history.available_view() == old(self).history.available_view(),
            final(self).history.path_view() == old(self).history.path_view(),
            final(self).current_dir == old(self).current_dir,
            final(self).file_list == old(self).file_list,
            final(self).clipboard == old(self).clipboard,
            final(self).state == old(self).state,
            final(self).frames == old(self).frames,
            final(self).ret == old(self).ret,
    {
        let u = OperationUnitFS::new(op, src, dst);
        let ghost gu = u;
        self.history.push(u);
        assert(record(op, src@, dst@, gu));
    }

    /// The listing of the current directory arrived.
    fn on_listing(&mut self, items: Vec<FileInfo>, err: Option<String>) -> (eff: Effect)
        requires
            old(self).wf(),
        ensures
            final(self).wf(),
            step_refreshed(*old(self), *final(self), old(self).frames@, items@, err, eff),
    {
        let complete = err.is_none();
        self.file_list.load_listing(items, complete);
        match err {
            Some(e) => self.set_state(StateFlag::Error, message("Loading Dir: ", e.as_str())),
            None => self.set_state(StateFlag::Ready, String::from_str("Ready")),
        }
        self.give(Ret::Unit)
    }

    /// The next step of resolving a conflict on `current`, whose existence
    /// is `exists`, with the user's answer once asked.
    fn resolve(
        &mut self,
        current: String,
        is_dir: bool,
        found: bool,
        answer: Option<(DuplicatedFileHandleOps, bool)>,
    ) -> (eff: Effect)
        requires
            old(self).wf(),
        ensures
            final(self).wf(),
            resolve_next(
                *old(self),
                *final(self),
                old(self).frames@,
                is_dir,
                resolve_step(current@, found, answer),
                eff,
            ),
    {
        if is_dir {
            match handle_dir_duplicate(current, found, answer) {
                ConflictStep::Done(r) => self.give(Ret::Dir(r)),
                ConflictStep::Ask(p) => {
                    let q = p.clone();
                    self.frames.push(Frame::Resolve { current: p, is_dir, asked: true });
                    Effect::Ask(q, is_dir)
                },
                ConflictStep::Check(p) => {
                    let q = p.clone();
                    self.frames.push(Frame::Resolve { current: p, is_dir, asked: false });
                    Effect::Probe(q)
                },
            }
        } else {
            match handle_file_duplicate(current, found, answer) {
                ConflictStep::Done(r) => self.give(Ret::File(r)),
                ConflictStep::Ask(p) => {
                    let q = p.clone();
                    self.frames.push(Frame::Resolve { current: p, is_dir, asked: true });
                    Effect::Ask(q, is_dir)
                },
                ConflictStep::Check(p) => {
                    let q = p.clone();
                    self.frames.push(Frame::Resolve { current: p, is_dir, asked: false });
                    Effect::Probe(q)
                },
            }
        }
    }

    /// The probe of a target to remove arrived: the removal is recorded and
    /// asked for.
    fn on_remove_probe(&mut self, path: String, is_dir: bool) -> (eff: Effect)
        requires
            old(self).wf(),
        ensures
            final(self).wf(),
            step_remove_probe(*old(self), *final(self), old(self).frames@, path@, is_dir, eff),
    {
        let p = path.clone();
        self.push_history(OperationFS::Remove, path, String::new());
        self.frames.push(Frame::RemoveWait);
        Effect::Remove(p, is_dir)
    }

    /// The probe of a new file's destination arrived.
    fn on_new_probe(&mut self, name: String, dest: String, is_dir: bool, found: bool) -> (eff: Effect)
        requires
            old(self).wf(),
        ensures
            final(self).wf(),
            step_new_probe(*old(self), *final(self), old(self).frames@, name@, dest, is_dir, found, eff),
    {
        if found {
            self.set_state(StateFlag::Error, message(name.as_str(), " already exists"));
            return self.give(Ret::Unit);
        }
        let p = dest.clone();
        self.frames.push(Frame::NewFileCreate { dest, is_dir });
        Effect::Create(p, is_dir)
    }

    /// The creation of a new file or directory went as `r`.
    fn on_new_created(&mut self, dest: String, is_dir: bool, r: Result<(), String>) -> (eff: Effect)
        requires
            old(self).wf(),
        ensures
            final(self).wf(),
            step_new_created(*old(self), *final(self), old(self).frames@, dest@, is_dir, r, eff),
    {
        match r {
            Err(e) => {
                let m = if is_dir {
                    message("Creating Directory: ", e.as_str())
                } else {
                    message("Creating File: ", e.as_str())
                };
                self.set_state(StateFlag::Error, m);
                self.give(Ret::Unit)
            },
            Ok(()) => {
                self.push_history(OperationFS::New, String::new(), dest);
                self.start_refresh()
            },
        }
    }

    /// The move of a renamed file went as `r`.
    fn on_renamed(&mut self, old_path: String, new_path: String, r: Result<(), String>) -> (eff: Effect)
        requires
            old(self).wf(),
        ensures
            final(self).wf(),
            step_renamed(*old(self), *final(self), old(self).frames@, old_path@, new_path@, r, eff),
    {
        match r {
            Err(e) => {
                self.set_state(StateFlag::Error, message("Rename: ", e.as_str()));
                self.give(Ret::Unit)
            },
            Ok(()) => {
                self.push_history(OperationFS::Rename, old_path, new_path);
                self.start_refresh()
            },
        }
    }

    /// The probe of a directory to change to arrived.
    fn on_change_probe(&mut self, target: String, found: bool, is_dir: bool) -> (eff: Effect)
        requires
            old(self).wf(),
        ensures
            final(self).wf(),
            step_change_probe(*old(self), *final(self), old(self).frames@, target@, found, is_dir, eff),
    {
        if !found {
            return self.give(Ret::Outcome(Err(String::from_str("Target path does not exist"))));
        }
        if !is_dir {
            return self.give(Ret::Outcome(Err(String::from_str("Target path is not a directory"))));
        }
        let t = target.clone();
        let mut old_dir = target;
        std::mem::swap(&mut old_dir, &mut self.current_dir);
        self.push_history(OperationFS::ChangeDir, old_dir, t);
        self.frames.push(Frame::ChangeDirWait);
        self.start_refresh()
    }

    /// A move to the parent ended as `r`.
    fn on_parent_done(&mut self, r: Result<(), String>) -> (eff: Effect)
        ensures
            step_parent_done(*old(self), *final(self), old(self).frames@, r, eff),
    {
        match r {
            Ok(()) => self.set_state(StateFlag::Ready, String::from_str("Moved to parent directory")),
            Err(e) => self.set_state(StateFlag::Error, message("Failed to go to parent: ", e.as_str())),
        }
        self.give(Ret::Unit)
    }

    /// An entry into the directory `name` ended as `r`.
    fn on_enter_done(&mut self, name: String, r: Result<(), String>) -> (eff: Effect)
        ensures
            step_enter_done(*old(self), *final(self), old(self).frames@, name@, r, eff),
    {
        match r {
            Ok(()) => self.set_state(StateFlag::Ready, message("Entered: ", name.as_str())),
            Err(e) => self.set_state(StateFlag::Error, message("Failed to enter directory: ", e.as_str())),
        }
        self.give(Ret::Unit)
    }
}

/// The removal of `path` is recorded (as far as the history is kept) and
/// asked for.
pub open spec fn step_remove_probe(o: FileSystemCore, n: FileSystemCore, base: Seq<Frame>, path: Seq<char>, is_dir: bool, eff: Effect) -> bool {
    &&& pushed(o, n, OperationFS::Remove, path, Seq::empty())
    &&& n.current_dir == o.current_dir && n.file_list == o.file_list && n.clipboard == o.clipboard
    &&& n.state == o.state
    &&& n.frames@ =~= base.push(Frame::RemoveWait)
    &&& eff matches Effect::Remove(p, d) && p@ == path && d == is_dir
}

/// A failed removal of the selected file is reported; after a done one
/// the directory is listed again.
pub open spec fn step_removed(o: FileSystemCore, n: FileSystemCore, base: Seq<Frame>, r: Result<(), String>, eff: Effect) -> bool {
    match r {
        Err(e) => same_data(o, n) && shows(n, StateFlag::Error, "Remove: "@ + e@) && hands_down(
            n,
            base,
            Ret::Unit,
            eff,
        ),
        Ok(()) => n.history == o.history && refreshing(o, n, base, eff),
    }
}

/// An existing destination is refused; otherwise its creation is asked for.
pub open spec fn step_new_probe(o: FileSystemCore, n: FileSystemCore, base: Seq<Frame>, name: Seq<char>, dest: String, is_dir: bool, found: bool, eff: Effect) -> bool {
    &&& same_data(o, n)
    &&& if found {
        shows(n, StateFlag::Error, name + " already exists"@) && hands_down(n, base, Ret::Unit, eff)
    } else {
        n.state == o.state && n.frames@ =~= base.push(Frame::NewFileCreate { dest, is_dir })
            && (eff matches Effect::Create(p, d) && p@ == dest@ && d == is_dir)
    }
}

/// A failed creation is reported; a done one is recorded and the directory
/// listed again.
pub open spec fn step_new_created(o: FileSystemCore, n: FileSystemCore, base: Seq<Frame>, dest: Seq<char>, is_dir: bool, r: Result<(), String>, eff: Effect) -> bool {
    match r {
        Err(e) => same_data(o, n) && hands_down(n, base, Ret::Unit, eff) && shows(
            n,
            StateFlag::Error,
            (if is_dir {
                "Creating Directory: "@
            } else {
                "Creating File: "@
            }) + e@,
        ),
        Ok(()) => pushed(o, n, OperationFS::New, Seq::empty(), dest) && refreshing(o, n, base, eff),
    }
}

/// A failed rename is reported; a done one is recorded and the directory
/// listed again.
pub open spec fn step_renamed(o: FileSystemCore, n: FileSystemCore, base: Seq<Frame>, old_path: Seq<char>, new_path: Seq<char>, r: Result<(), String>, eff: Effect) -> bool {
    match r {
        Err(e) => same_data(o, n) && hands_down(n, base, Ret::Unit, eff) && shows(
            n,
            StateFlag::Error,
            "Rename: "@ + e@,
        ),
        Ok(()) => pushed(o, n, OperationFS::Rename, old_path, new_path) && refreshing(
            o,
            n,
            base,
            eff,
        ),
    }
}

/// A target that is missing or not a directory is refused with a message;
/// otherwise it becomes the current directory, the change is recorded and
/// the directory is listed, after which success is handed down.
pub open spec fn step_change_probe(o: FileSystemCore, n: FileSystemCore, base: Seq<Frame>, target: Seq<char>, found: bool, is_dir: bool, eff: Effect) -> bool {
    if !found || !is_dir {
        &&& same_data(o, n)
        &&& n.state == o.state
        &&& n.frames@ == base
        &&& eff is Continue
        &&& n.ret matches Ret::Outcome(Err(m)) && m@ == (if !found {
            "Target path does not exist"@
        } else {
            "Target path is not a directory"@
        })
    } else {
        &&& n.current_dir@ == target
        &&& pushed(o, n, OperationFS::ChangeDir, o.current_dir@, target)
        &&& n.file_list.files_view() == o.file_list.files_view()
        &&& n.file_list.selected() is None
        &&& n.clipboard == o.clipboard
        &&& n.state == o.state
        &&& n.frames@ =~= base.push(Frame::ChangeDirWait).push(Frame::Refresh)
        &&& eff matches Effect::List(p) && p@ == target
    }
}

/// The end of a move to the parent is reported.
pub open spec fn step_parent_done(o: FileSystemCore, n: FileSystemCore, base: Seq<Frame>, r: Result<(), String>, eff: Effect) -> bool {
    &&& same_data(o, n)
    &&& hands_down(n, base, Ret::Unit, eff)
    &&& match r {
        Ok(()) => shows(n, StateFlag::Ready, "Moved to parent directory"@),
        Err(e) => shows(n, StateFlag::Error, "Failed to go to parent: "@ + e@),
    }
}

/// The end of an entry into a directory is reported.
pub open spec fn step_enter_done(o: FileSystemCore, n: FileSystemCore, base: Seq<Frame>, name: Seq<char>, r: Result<(), String>, eff: Effect) -> bool {
    &&& same_data(o, n)
    &&& hands_down(n, base, Ret::Unit, eff)
    &&& match r {
        Ok(()) => shows(n, StateFlag::Ready, "Entered: "@ + name),
        Err(e) => shows(n, StateFlag::Error, "Failed to enter directory: "@ + e@),
    }
}

/// The records of two operations are pushed on the history, in order.
pub open spec fn pushed2(
    o: FileSystemCore,
    n: FileSystemCore,
    op1: OperationFS,
    src1: Seq<char>,
    dst1: Seq<char>,
    op2: OperationFS,
    src2: Seq<char>,
    dst2: Seq<char>,
) -> bool {
    &&& exists|u1: OperationUnitFS, u2: OperationUnitFS|
        record(op1, src1, dst1, u1) && record(op2, src2, dst2, u2) && n.history.log_view()
            == crate::fs_info::history::push_log(
            crate::fs_info::history::push_log(
                o.history.log_view(),
                o.history.available_view(),
                u1,
            ),
            o.history.available_view(),
            u2,
        )
    &&& n.history.available_view() == o.history.available_view()
    &&& n.history.path_view() == o.history.path_view()
}

/// The paste of a file starts above `below`: a source without a name is
/// refused; otherwise the conflict on its destination in `dest_dir` is
/// resolved first.
pub open spec fn paste_file_started(o: FileSystemCore, n: FileSystemCore, below: Seq<Frame>, source: String, dest_dir: Seq<char>, is_copy: bool, eff: Effect) -> bool {
    &&& same_data(o, n)
    &&& match std_file_name(source@) {
        None => shows(n, StateFlag::Error, "Get File Name: source path has no file name"@)
            && hands_down(n, below, Ret::Unit, eff),
        Some(name) => n.state == o.state && n.frames@.len() == below.len() + 2
            && n.frames@.take(below.len() + 1int) =~= below.push(Frame::FileResolved { source, is_copy })
            && (n.frames@.last() matches Frame::Resolve { current, is_dir: false, asked: false }
            && current@ == std_join(dest_dir, name)) && (eff matches Effect::Probe(p) && p@
            == std_join(dest_dir, name)),
    }
}

/// The paste of a directory starts above `below`: a source without a name
/// is refused; otherwise the conflict on its destination in `dest_dir` is
/// resolved first.
pub open spec fn paste_dir_started(o: FileSystemCore, n: FileSystemCore, below: Seq<Frame>, source: String, dest_dir: Seq<char>, is_copy: bool, eff: Effect) -> bool {
    &&& same_data(o, n)
    &&& match std_file_name(source@) {
        None => shows(n, StateFlag::Error, "Source directory has no name"@) && hands_down(
            n,
            below,
            Ret::Unit,
            eff,
        ),
        Some(name) => n.state == o.state && n.frames@.len() == below.len() + 2
            && n.frames@.take(below.len() + 1int) =~= below.push(Frame::DirResolved { source, is_copy })
            && (n.frames@.last() matches Frame::Resolve { current, is_dir: true, asked: false }
            && current@ == std_join(dest_dir, name)) && (eff matches Effect::Probe(p) && p@
            == std_join(dest_dir, name)),
    }
}

/// The copy (or move) of `source` to `dest` is asked for.
pub open spec fn file_transfer_started(o: FileSystemCore, n: FileSystemCore, base: Seq<Frame>, source: Seq<char>, dest: Seq<char>, is_copy: bool, eff: Effect) -> bool {
    &&& same_data(o, n)
    &&& n.state == o.state
    &&& n.frames@.len() == base.len() + 1
    &&& n.frames@.drop_last() =~= base
    &&& n.frames@.last() matches Frame::FileTransfer { source: s, dest: d, is_copy: c } && s@
        == source && d@ == dest && c == is_copy
    &&& if is_copy {
        eff matches Effect::Copy(a, b) && a@ == source && b@ == dest
    } else {
        eff matches Effect::Move(a, b) && a@ == source && b@ == dest
    }
}

/// A cancelled or skipped conflict ends the paste with a message; a
/// resolved one goes on with the removal of the overwritten target, or
/// with the copy or move.
pub open spec fn step_file_resolved(o: FileSystemCore, n: FileSystemCore, base: Seq<Frame>, source: String, is_copy: bool, r: Resolved, eff: Effect) -> bool {
    match r {
        Resolved::Cancel => same_data(o, n) && shows(n, StateFlag::Ready, "Cancelled"@) && hands_down(
            n,
            base,
            Ret::Unit,
            eff,
        ),
        Resolved::Skip(_) => same_data(o, n) && shows(n, StateFlag::Ready, "Skipped"@)
            && hands_down(n, base, Ret::Unit, eff),
        Resolved::Proceed(dest, handler, _) => if handler is Overwrite {
            &&& same_data(o, n)
            &&& n.state == o.state
            &&& n.frames@.len() == base.len() + 2
            &&& n.frames@.take(base.len() as int) =~= base
            &&& n.frames@[base.len() as int] matches Frame::FileRemoved { source: s, dest: d, is_copy: c }
                && s == source && d@ == dest@ && c == is_copy
            &&& n.frames@.last() matches Frame::RemoveProbe { path } && path@ == dest@
            &&& eff matches Effect::Probe(p) && p@ == dest@
        } else {
            file_transfer_started(o, n, base, source@, dest@, is_copy, eff)
        },
    }
}

/// A failed removal of the overwritten target ends the paste with a
/// message; otherwise the copy or move is asked for.
pub open spec fn step_file_removed(o: FileSystemCore, n: FileSystemCore, base: Seq<Frame>, source: Seq<char>, dest: Seq<char>, is_copy: bool, r: Result<(), String>, eff: Effect) -> bool {
    match r {
        Err(e) => same_data(o, n) && shows(n, StateFlag::Error, "Overwrite File: "@ + e@)
            && hands_down(n, base, Ret::Unit, eff),
        Ok(()) => file_transfer_started(o, n, base, source, dest, is_copy, eff),
    }
}

/// A failed copy or move ends the paste with a message; a done one is
/// recorded.
pub open spec fn step_file_transferred(o: FileSystemCore, n: FileSystemCore, base: Seq<Frame>, source: Seq<char>, dest: Seq<char>, is_copy: bool, r: Result<(), String>, eff: Effect) -> bool {
    match r {
        Err(e) => same_data(o, n) && hands_down(n, base, Ret::Unit, eff) && shows(
            n,
            StateFlag::Error,
            (if is_copy {
                "Copy File: "@
            } else {
                "Move File: "@
            }) + e@,
        ),
        Ok(()) => {
            &&& pushed(
                o,
                n,
                if is_copy {
                    OperationFS::Copy
                } else {
                    OperationFS::Move
                },
                source,
                dest,
            )
            &&& n.current_dir == o.current_dir && n.file_list == o.file_list && n.clipboard
                == o.clipboard
            &&& shows(n, StateFlag::Ready, "Done"@)
            &&& hands_down(n, base, Ret::Unit, eff)
        },
    }
}

/// The resolution of a conflict, whatever the kind of the target.
pub enum Resolved {
    Proceed(String, DuplicatedFileHandleOps, bool),
    Skip(bool),
    Cancel,
}

/// The resolution of a file conflict.
pub open spec fn file_resolved(r: FileConflictResult) -> Resolved {
    match r {
        FileConflictResult::Proceed { dest, handler, apply } => Resolved::Proceed(dest, handler, apply),
        FileConflictResult::Skip { apply } => Resolved::Skip(apply),
        FileConflictResult::Cancel => Resolved::Cancel,
    }
}

/// The resolution of a directory conflict.
pub open spec fn dir_resolved(r: DirConflictResult) -> Resolved {
    match r {
        DirConflictResult::Proceed { dest, handler, apply } => Resolved::Proceed(dest, handler, apply),
        DirConflictResult::Skip { apply } => Resolved::Skip(apply),
        DirConflictResult::Cancel => Resolved::Cancel,
    }
}

fn of_file(r: FileConflictResult) -> (s: Resolved)
    ensures
        s == file_resolved(r),
{
    match r {
        FileConflictResult::Proceed { dest, handler, apply } => Resolved::Proceed(dest, handler, apply),
        FileConflictResult::Skip { apply } => Resolved::Skip(apply),
        FileConflictResult::Cancel => Resolved::Cancel,
    }
}

fn of_dir(r: DirConflictResult) -> (s: Resolved)
    ensures
        s == dir_resolved(r),
{
    match r {
        DirConflictResult::Proceed { dest, handler, apply } => Resolved::Proceed(dest, handler, apply),
        DirConflictResult::Skip { apply } => Resolved::Skip(apply),
        DirConflictResult::Cancel => Resolved::Cancel,
    }
}

impl FileSystemCore {
    /// Starts the paste of the file `source` into `dest_dir`.
    fn start_paste_file(&mut self, source: String, dest_dir: &str, is_copy: bool) -> (eff: Effect)
        requires
            old(self).wf(),
        ensures
            final(self).wf(),
            paste_file_started(*old(self), *final(self), old(self).frames@, source, dest_dir@, is_copy, eff),
    {
        match file_name(source.as_str()) {
            None => {
                self.set_state(
                    StateFlag::Error,
                    String::from_str("Get File Name: source path has no file name"),
                );
                self.give(Ret::Unit)
            },
            Some(name) => {
                let initial = join(dest_dir, name.as_str());
                let p = initial.clone();
                self.frames.push(Frame::FileResolved { source, is_copy });
                self.frames.push(Frame::Resolve { current: initial, is_dir: false, asked: false });
                Effect::Probe(p)
            },
        }
    }

    /// Starts the paste of the directory `source` into `dest_dir`.
    fn start_paste_dir(&mut self, source: String, dest_dir: &str, is_copy: bool) -> (eff: Effect)
        requires
            old(self).wf(),
        ensures
            final(self).wf(),
            paste_dir_started(*old(self), *final(self), old(self).frames@, source, dest_dir@, is_copy, eff),
    {
        match file_name(source.as_str()) {
            None => {
                self.set_state(StateFlag::Error, String::from_str("Source directory has no name"));
                self.give(Ret::Unit)
            },
            Some(name) => {
                let initial = join(dest_dir, name.as_str());
                let p = initial.clone();
                self.frames.push(Frame::DirResolved { source, is_copy });
                self.frames.push(Frame::Resolve { current: initial, is_dir: true, asked: false });
                Effect::Probe(p)
            },
        }
    }

    /// The probe of the clipboard's path arrived: a directory or a file is
    /// pasted, after which the directory is listed again.
    fn on_paste_probe(&mut self, source: String, is_copy: bool, dest_dir: String, is_dir: bool) -> (eff: Effect)
        requires
            old(self).wf(),
        ensures
            final(self).wf(),
            if is_dir {
                paste_dir_started(*old(self), *final(self), old(self).frames@.push(Frame::PasteWait), source, dest_dir@, is_copy, eff)
            } else {
                paste_file_started(*old(self), *final(self), old(self).frames@.push(Frame::PasteWait), source, dest_dir@, is_copy, eff)
            },
    {
        self.frames.push(Frame::PasteWait);
        if is_dir {
            self.start_paste_dir(source, dest_dir.as_str(), is_copy)
        } else {
            self.start_paste_file(source, dest_dir.as_str(), is_copy)
        }
    }

    /// Asks for the copy or move of `source` to `dest`.
    fn start_file_transfer(&mut self, source: String, dest: String, is_copy: bool) -> (eff: Effect)
        ensures
            file_transfer_started(*old(self), *final(self), old(self).frames@, source@, dest@, is_copy, eff),
            final(self).ret == old(self).ret,
    {
        let s = source.clone();
        let d = dest.clone();
        self.frames.push(Frame::FileTransfer { source, dest, is_copy });
        if is_copy {
            Effect::Copy(s, d)
        } else {
            Effect::Move(s, d)
        }
    }

    /// The conflict on a pasted file's destination was resolved.
    fn on_file_resolved(&mut self, source: String, is_copy: bool, r: Resolved) -> (eff: Effect)
        requires
            old(self).wf(),
        ensures
            final(self).wf(),
            step_file_resolved(*old(self), *final(self), old(self).frames@, source, is_copy, r, eff),
    {
        match r {
            Resolved::Cancel => {
                self.set_state(StateFlag::Ready, String::from_str("Cancelled"));
                self.give(Ret::Unit)
            },
            Resolved::Skip(_) => {
                self.set_state(StateFlag::Ready, String::from_str("Skipped"));
                self.give(Ret::Unit)
            },
            Resolved::Proceed(dest, handler, _) => {
                if matches!(handler, DuplicatedFileHandleOps::Overwrite) {
                    let d = dest.clone();
                    let p = dest.clone();
                    self.frames.push(Frame::FileRemoved { source, dest: d, is_copy });
                    self.frames.push(Frame::RemoveProbe { path: dest });
                    Effect::Probe(p)
                } else {
                    self.start_file_transfer(source, dest, is_copy)
                }
            },
        }
    }

    /// The removal of the selected file went as `r`.
    fn on_removed(&mut self, r: Result<(), String>) -> (eff: Effect)
        requires
            old(self).wf(),
        ensures
            final(self).wf(),
            step_removed(*old(self), *final(self), old(self).frames@, r, eff),
    {
        match r {
            Err(e) => {
                self.set_state(StateFlag::Error, message("Remove: ", e.as_str()));
                self.give(Ret::Unit)
            },
            Ok(()) => self.start_refresh(),
        }
    }

    /// The removal of an overwritten target went as `r`.
    fn on_file_removed(&mut self, source: String, dest: String, is_copy: bool, r: Result<(), String>) -> (eff: Effect)
        requires
            old(self).wf(),
        ensures
            final(self).wf(),
            step_file_removed(*old(self), *final(self), old(self).frames@, source@, dest@, is_copy, r, eff),
    {
        match r {
            Err(e) => {
                self.set_state(StateFlag::Error, message("Overwrite File: ", e.as_str()));
                self.give(Ret::Unit)
            },
            Ok(()) => self.start_file_transfer(source, dest, is_copy),
        }
    }

    /// The copy or move of a pasted file went as `r`.
    fn on_file_transferred(&mut self, source: String, dest: String, is_copy: bool, r: Result<(), String>) -> (eff: Effect)
        requires
            old(self).wf(),
        ensures
            final(self).wf(),
            step_file_transferred(*old(self), *final(self), old(self).frames@, source@, dest@, is_copy, r, eff),
    {
        match r {
            Err(e) => {
                let m = if is_copy {
                    message("Copy File: ", e.as_str())
                } else {
                    message("Move File: ", e.as_str())
                };
                self.set_state(StateFlag::Error, m);
                self.give(Ret::Unit)
            },
            Ok(()) => {
                let op = if is_copy {
                    OperationFS::Copy
                } else {
                    OperationFS::Move
                };
                self.push_history(op, source, dest);
                self.set_state(StateFlag::Ready, String::from_str("Done"));
                self.give(Ret::Unit)
            },
        }
    }
}

/// The paste of a directory goes on after its destination `dest` was
/// resolved: the destination is created.
pub open spec fn step_dir_resolved(o: FileSystemCore, n: FileSystemCore, base: Seq<Frame>, source: String, is_copy: bool, r: Resolved, eff: Effect) -> bool {
    &&& same_data(o, n)
    &&& match r {
        Resolved::Cancel => shows(n, StateFlag::Ready, "Cancelled"@) && hands_down(n, base, Ret::Unit, eff),
        Resolved::Skip(_) => shows(n, StateFlag::Ready, "Skipped"@) && hands_down(n, base, Ret::Unit, eff),
        Resolved::Proceed(dest, h, _) => n.state == o.state && n.frames@ =~= base.push(
            Frame::DirCreated { source, root: dest, is_copy, fresh: h is NoConflict },
        ) && (eff matches Effect::CreateAll(p) && p@ == dest@),
    }
}

/// A failed creation of the pasted directory's root ends the paste with a
/// message; otherwise the start of a range is recorded, then the paste of
/// the whole tree when its root is `fresh` (a root that existed is not
/// recorded, so that undoing the range leaves what it held), and the
/// content of the source is read.
pub open spec fn step_dir_created(o: FileSystemCore, n: FileSystemCore, base: Seq<Frame>, source: Seq<char>, root: Seq<char>, is_copy: bool, fresh: bool, r: Result<(), String>, eff: Effect) -> bool {
    match r {
        Err(e) => same_data(o, n) && shows(n, StateFlag::Error, "Create DIR: "@ + e@) && hands_down(
            n,
            base,
            Ret::Unit,
            eff,
        ),
        Ok(()) => {
            &&& if fresh {
                pushed2(
                    o,
                    n,
                    OperationFS::StartRange,
                    Seq::empty(),
                    Seq::empty(),
                    if is_copy {
                        OperationFS::Copy
                    } else {
                        OperationFS::Move
                    },
                    source,
                    root,
                )
            } else {
                pushed(o, n, OperationFS::StartRange, Seq::empty(), Seq::empty())
            }
            &&& n.current_dir == o.current_dir && n.file_list == o.file_list && n.clipboard
                == o.clipboard
            &&& n.state == o.state
            &&& n.frames@.len() == base.len() + 2
            &&& n.frames@.take(base.len() as int) =~= base
            &&& n.frames@[base.len() as int] matches Frame::DirPasted { source: s, is_copy: c } && s@
                == source && c == is_copy
            &&& n.frames@.last() matches Frame::Listing { source: s, dest: d, is_copy: c, each: e } && s@
                == source && d@ == root && c == is_copy && e == !fresh
            &&& eff matches Effect::ReadDir(p) && p@ == source
        },
    }
}

/// The content of a pasted directory is done: the end of the range is
/// recorded; a failure is undone, a moved source is removed.
pub open spec fn step_dir_pasted(o: FileSystemCore, n: FileSystemCore, base: Seq<Frame>, source: Seq<char>, is_copy: bool, r: Result<(), PasteAbort>, eff: Effect) -> bool {
    &&& pushed(o, n, OperationFS::EndRange, Seq::empty(), Seq::empty())
    &&& n.current_dir == o.current_dir && n.file_list == o.file_list && n.clipboard == o.clipboard
    &&& n.state == o.state
    &&& match r {
        Err(_) => n.frames@ =~= base.push(Frame::UndoStart) && eff is Continue,
        Ok(()) => if is_copy {
            hands_down(n, base, Ret::Unit, eff)
        } else {
            n.frames@ =~= base.push(Frame::DirSourceRemoved) && (eff matches Effect::RemoveDir(p)
                && p@ == source)
        },
    }
}

/// The source of a moved directory was removed, or the failure is reported
/// and the paste undone.
pub open spec fn step_dir_source_removed(o: FileSystemCore, n: FileSystemCore, base: Seq<Frame>, r: Result<(), String>, eff: Effect) -> bool {
    &&& same_data(o, n)
    &&& match r {
        Err(e) => shows(n, StateFlag::Error, "Remove source DIR: "@ + e@) && n.frames@ =~= base.push(
            Frame::UndoStart,
        ) && eff is Continue,
        Ok(()) => n.state == o.state && hands_down(n, base, Ret::Unit, eff),
    }
}

/// The entries of a directory to paste arrived: they are walked through,
/// one by one; a directory that could not be read fails the paste.
pub open spec fn step_listing(o: FileSystemCore, n: FileSystemCore, base: Seq<Frame>, dest: String, is_copy: bool, each: bool, entries: Option<Vec<DirItem>>, eff: Effect) -> bool {
    &&& same_data(o, n)
    &&& n.state == o.state
    &&& match entries {
        None => hands_down(n, base, Ret::Abort(Err(PasteAbort::Error)), eff),
        Some(items) => n.frames@ =~= base.push(
            Frame::Walk { dest, is_copy, each, apply: ApplyToAll::No, items, next: 0 },
        ) && n.ret == Ret::Unit && eff is Continue,
    }
}

/// The next entry of a directory to paste: past the last one the paste of
/// the content succeeded; an entry that could not be read fails it with a
/// message; otherwise the entry is pasted to its place in `dest`.
pub open spec fn step_walk_next(o: FileSystemCore, n: FileSystemCore, base: Seq<Frame>, dest: String, is_copy: bool, each: bool, apply: ApplyToAll, items: Vec<DirItem>, next: usize, eff: Effect) -> bool {
    &&& same_data(o, n)
    &&& if next >= items@.len() {
        n.state == o.state && hands_down(n, base, Ret::Abort(Ok(())), eff)
    } else {
        match items@[next as int] {
            DirItem::EntryError(e) => shows(n, StateFlag::Error, "Reading Dir Entry: "@ + e@)
                && hands_down(n, base, Ret::Abort(Err(PasteAbort::Error)), eff),
            DirItem::TypeError(e) => shows(n, StateFlag::Error, "Reading Entry Type: "@ + e@)
                && hands_down(n, base, Ret::Abort(Err(PasteAbort::Error)), eff),
            DirItem::Entry { path, name, is_dir } => {
                &&& n.state == o.state
                &&& n.frames@.len() == base.len() + 2
                &&& n.frames@.take(base.len() as int) =~= base
                &&& n.frames@[base.len() as int] == Frame::Walk {
                    dest,
                    is_copy, each,
                    apply,
                    items,
                    next: (next + 1) as usize,
                }
                &&& n.frames@.last() matches Frame::EntryProbe {
                    source: s,
                    dest: d,
                    is_dir: x,
                    is_copy: c, each: e,
                    apply: a,
                } && s@ == path@ && d@ == std_join(dest@, name@) && x == is_dir && c == is_copy && e == each
                    && a == apply
                &&& eff matches Effect::Probe(p) && p@ == std_join(dest@, name@)
            },
        }
    }
}

/// The walk through a directory's entries resumes after an entry: a failed
/// entry fails the directory, otherwise the next entry follows with the
/// apply-to-all state the entry left.
pub open spec fn step_walk(o: FileSystemCore, n: FileSystemCore, base: Seq<Frame>, dest: String, is_copy: bool, each: bool, apply: ApplyToAll, items: Vec<DirItem>, next: usize, ret: Ret, eff: Effect) -> bool {
    match ret {
        Ret::Entry(Err(x), _) => same_data(o, n) && n.state == o.state && hands_down(
            n,
            base,
            Ret::Abort(Err(x)),
            eff,
        ),
        Ret::Entry(Ok(()), a) => step_walk_next(o, n, base, dest, is_copy, each, a, items, next, eff),
        _ => step_walk_next(o, n, base, dest, is_copy, each, apply, items, next, eff),
    }
}

impl FileSystemCore {
    /// The conflict on a pasted directory's destination was resolved.
    fn on_dir_resolved(&mut self, source: String, is_copy: bool, r: Resolved) -> (eff: Effect)
        requires
            old(self).wf(),
        ensures
            final(self).wf(),
            step_dir_resolved(*old(self), *final(self), old(self).frames@, source, is_copy, r, eff),
    {
        match r {
            Resolved::Cancel => {
                self.set_state(StateFlag::Ready, String::from_str("Cancelled"));
                self.give(Ret::Unit)
            },
            Resolved::Skip(_) => {
                self.set_state(StateFlag::Ready, String::from_str("Skipped"));
                self.give(Ret::Unit)
            },
            Resolved::Proceed(dest, h, _) => {
                let p = dest.clone();
                let fresh = matches!(h, DuplicatedFileHandleOps::NoConflict);
                self.frames.push(Frame::DirCreated { source, root: dest, is_copy, fresh });
                Effect::CreateAll(p)
            },
        }
    }

    /// The creation of a pasted directory's root went as `r`.
    fn on_dir_created(&mut self, source: String, root: String, is_copy: bool, fresh: bool, r: Result<(), String>) -> (eff: Effect)
        requires
            old(self).wf(),
        ensures
            final(self).wf(),
            step_dir_created(*old(self), *final(self), old(self).frames@, source@, root@, is_copy, fresh, r, eff),
    {
        match r {
            Err(e) => {
                self.set_state(StateFlag::Error, message("Create DIR: ", e.as_str()));
                self.give(Ret::Unit)
            },
            Ok(()) => {
                let ghost o = *self;
                self.push_history(OperationFS::StartRange, String::new(), String::new());
                let ghost m = *self;
                let op = if is_copy {
                    OperationFS::Copy
                } else {
                    OperationFS::Move
                };
                if fresh {
                    self.push_history(op, source.clone(), root.clone());
                }
                proof {
                    let u1 = choose|u: OperationUnitFS|
                        record(OperationFS::StartRange, Seq::empty(), Seq::empty(), u)
                            && m.history.log_view() == crate::fs_info::history::push_log(
                            o.history.log_view(),
                            o.history.available_view(),
                            u,
                        );
                    assert(record(OperationFS::StartRange, Seq::empty(), Seq::empty(), u1));
                    if fresh {
                        let u2 = choose|u: OperationUnitFS|
                            record(op, source@, root@, u) && self.history.log_view()
                                == crate::fs_info::history::push_log(
                                m.history.log_view(),
                                m.history.available_view(),
                                u,
                            );
                        assert(record(op, source@, root@, u2));
                    }
                }
                let s = source.clone();
                self.frames.push(Frame::DirPasted { source: source.clone(), is_copy });
                let each = !fresh;
                self.frames.push(Frame::Listing { source, dest: root, is_copy, each });
                Effect::ReadDir(s)
            },
        }
    }

    /// The content of a pasted directory is done.
    fn on_dir_pasted(&mut self, source: String, is_copy: bool, r: Result<(), PasteAbort>) -> (eff: Effect)
        requires
            old(self).wf(),
        ensures
            final(self).wf(),
            step_dir_pasted(*old(self), *final(self), old(self).frames@, source@, is_copy, r, eff),
    {
        self.push_history(OperationFS::EndRange, String::new(), String::new());
        match r {
            Err(_) => {
                self.frames.push(Frame::UndoStart);
                Effect::Continue
            },
            Ok(()) => if is_copy {
                self.give(Ret::Unit)
            } else {
                self.frames.push(Frame::DirSourceRemoved);
                Effect::RemoveDir(source)
            },
        }
    }

    /// The removal of a moved directory's source went as `r`.
    fn on_dir_source_removed(&mut self, r: Result<(), String>) -> (eff: Effect)
        ensures
            step_dir_source_removed(*old(self), *final(self), old(self).frames@, r, eff),
    {
        match r {
            Err(e) => {
                self.set_state(StateFlag::Error, message("Remove source DIR: ", e.as_str()));
                self.frames.push(Frame::UndoStart);
                Effect::Continue
            },
            Ok(()) => self.give(Ret::Unit),
        }
    }

    /// The entries of a directory to paste arrived.
    fn on_entries(&mut self, dest: String, is_copy: bool, each: bool, entries: Option<Vec<DirItem>>) -> (eff: Effect)
        ensures
            step_listing(*old(self), *final(self), old(self).frames@, dest, is_copy, each, entries, eff),
    {
        match entries {
            None => self.give(Ret::Abort(Err(PasteAbort::Error))),
            Some(items) => {
                self.frames.push(
                    Frame::Walk { dest, is_copy, each, apply: ApplyToAll::No, items, next: 0 },
                );
                self.give(Ret::Unit)
            },
        }
    }

    /// The next entry of a directory to paste.
    fn walk_next(&mut self, dest: String, is_copy: bool, each: bool, apply: ApplyToAll, items: Vec<DirItem>, next: usize) -> (eff: Effect)
        ensures
            step_walk_next(*old(self), *final(self), old(self).frames@, dest, is_copy, each, apply, items, next, eff),
    {
        if next >= items.len() {
            return self.give(Ret::Abort(Ok(())));
        }
        match &items[next] {
            DirItem::EntryError(e) => {
                self.set_state(StateFlag::Error, message("Reading Dir Entry: ", e.as_str()));
                self.give(Ret::Abort(Err(PasteAbort::Error)))
            },
            DirItem::TypeError(e) => {
                self.set_state(StateFlag::Error, message("Reading Entry Type: ", e.as_str()));
                self.give(Ret::Abort(Err(PasteAbort::Error)))
            },
            DirItem::Entry { path, name, is_dir } => {
                let d = join(dest.as_str(), name.as_str());
                let p = d.clone();
                let source = path.clone();
                let is_dir = *is_dir;
                let a = apply.clone();
                self.frames.push(Frame::Walk { dest, is_copy, each, apply, items, next: next + 1 });
                self.frames.push(
                    Frame::EntryProbe { source, dest: d, is_dir, is_copy, each, apply: a },
                );
                Effect::Probe(p)
            },
        }
    }

    /// The walk through a directory's entries resumes with what the last
    /// entry handed down.
    fn on_walk(&mut self, dest: String, is_copy: bool, each: bool, apply: ApplyToAll, items: Vec<DirItem>, next: usize, ret: Ret) -> (eff: Effect)
        ensures
            step_walk(*old(self), *final(self), old(self).frames@, dest, is_copy, each, apply, items, next, ret, eff),
    {
        match ret {
            Ret::Entry(Err(x), _) => self.give(Ret::Abort(Err(x))),
            Ret::Entry(Ok(()), a) => self.walk_next(dest, is_copy, each, a, items, next),
            _ => self.walk_next(dest, is_copy, each, apply, items, next),
        }
    }
}

/// The copy, or the move, of one file entry is asked for.
pub open spec fn entry_transferring(o: FileSystemCore, n: FileSystemCore, base: Seq<Frame>, source: Seq<char>, dest: Seq<char>, is_copy: bool, each: bool, apply: ApplyToAll, eff: Effect) -> bool {
    &&& same_data(o, n)
    &&& n.state == o.state
    &&& n.frames@.len() == base.len() + 1
    &&& n.frames@.drop_last() =~= base
    &&& if is_copy {
        (n.frames@.last() matches Frame::EntryCopy { source: s, dest: d, apply: a } && s@ == source
            && d@ == dest && a == apply) && (eff matches Effect::Copy(x, y) && x@ == source && y@
            == dest)
    } else {
        (n.frames@.last() matches Frame::EntryMove { source: s, dest: d, each: e, apply: a } && s@
            == source && d@ == dest && e == each && a == apply) && (eff matches Effect::Move(x, y)
            && x@ == source && y@ == dest)
    }
}

/// One entry goes on to its destination `dest` with the answer `handler`
/// (and whether it applies to all): the apply-to-all state takes the
/// answer; a directory is created, an overwritten file removed first, a
/// file copied or moved.
pub open spec fn entry_proceeding(o: FileSystemCore, n: FileSystemCore, base: Seq<Frame>, source: Seq<char>, dest: Seq<char>, handler: DuplicatedFileHandleOps, all: bool, is_dir: bool, is_copy: bool, each: bool, eff: Effect) -> bool {
    let apply = crate::fs_info::duplicate_handler::updated(handler, all, is_dir);
    if is_dir {
        &&& same_data(o, n)
        &&& n.state == o.state
        &&& n.frames@.len() == base.len() + 1
        &&& n.frames@.drop_last() =~= base
        &&& n.frames@.last() matches Frame::EntryDirCreated { source: s, dest: d, is_copy: c, each: e, fresh: f, apply: a }
            && s@ == source && d@ == dest && c == is_copy && e == each && f == (handler is NoConflict) && a == apply
        &&& eff matches Effect::CreateAll(p) && p@ == dest
    } else if handler is Overwrite {
        &&& same_data(o, n)
        &&& n.state == o.state
        &&& n.frames@.len() == base.len() + 2
        &&& n.frames@.take(base.len() as int) =~= base
        &&& n.frames@[base.len() as int] matches Frame::EntryRemoved { source: s, dest: d, is_copy: c, each: e, apply: a }
            && s@ == source && d@ == dest && c == is_copy && e == each && a == apply
        &&& n.frames@.last() matches Frame::RemoveProbe { path } && path@ == dest
        &&& eff matches Effect::Probe(p) && p@ == dest
    } else {
        entry_transferring(o, n, base, source, dest, is_copy, each, apply, eff)
    }
}

/// The probe of an entry's destination arrived: a free destination is
/// taken at once, an occupied one with the stored apply-to-all answer for
/// its kind, else the conflict is resolved.
pub open spec fn step_entry_probe(o: FileSystemCore, n: FileSystemCore, base: Seq<Frame>, source: String, dest: String, is_dir: bool, is_copy: bool, each: bool, apply: ApplyToAll, found: bool, eff: Effect) -> bool {
    if !found {
        entry_proceeding(o, n, base, source@, dest@, DuplicatedFileHandleOps::NoConflict, false, is_dir, is_copy, each, eff)
    } else {
        match crate::fs_info::duplicate_handler::stored_for(apply, is_dir) {
            Some(h) => entry_proceeding(o, n, base, source@, dest@, h, true, is_dir, is_copy, each, eff),
            None => {
                &&& same_data(o, n)
                &&& n.state == o.state
                &&& n.frames@.len() == base.len() + 2
                &&& n.frames@.take(base.len() as int) =~= base
                &&& n.frames@[base.len() as int] == Frame::EntryResolved {
                    source,
                    is_dir,
                    is_copy, each,
                    apply,
                }
                &&& n.frames@.last() matches Frame::Resolve { current, is_dir: d, asked: false }
                    && current@ == dest@ && d == is_dir
                &&& eff matches Effect::Probe(p) && p@ == dest@
            },
        }
    }
}

/// The conflict on an entry's destination was resolved: cancel stops the
/// paste, skip passes over the entry, otherwise the entry goes on.
pub open spec fn step_entry_resolved(o: FileSystemCore, n: FileSystemCore, base: Seq<Frame>, source: Seq<char>, is_dir: bool, is_copy: bool, each: bool, apply: ApplyToAll, r: Resolved, eff: Effect) -> bool {
    match r {
        Resolved::Cancel => same_data(o, n) && n.state == o.state && hands_down(
            n,
            base,
            Ret::Entry(Err(PasteAbort::Cancel), apply),
            eff,
        ),
        Resolved::Skip(all) => same_data(o, n) && n.state == o.state && hands_down(
            n,
            base,
            Ret::Entry(
                Ok(()),
                crate::fs_info::duplicate_handler::updated(DuplicatedFileHandleOps::Skip, all, is_dir),
            ),
            eff,
        ),
        Resolved::Proceed(dest, handler, all) => entry_proceeding(
            o,
            n,
            base,
            source,
            dest@,
            handler,
            all,
            is_dir,
            is_copy, each,
            eff,
        ),
    }
}

/// The failure of an entry's step is reported with `prefix` and fails the
/// paste.
pub open spec fn entry_failed(o: FileSystemCore, n: FileSystemCore, base: Seq<Frame>, prefix: Seq<char>, e: String, apply: ApplyToAll, eff: Effect) -> bool {
    same_data(o, n) && shows(n, StateFlag::Error, prefix + e@) && hands_down(
        n,
        base,
        Ret::Entry(Err(PasteAbort::Error), apply),
        eff,
    )
}

/// The entry is done.
pub open spec fn entry_done(o: FileSystemCore, n: FileSystemCore, base: Seq<Frame>, apply: ApplyToAll, eff: Effect) -> bool {
    same_data(o, n) && n.state == o.state && hands_down(n, base, Ret::Entry(Ok(()), apply), eff)
}

/// A failed copy of an entry fails the paste; a done one is recorded.
pub open spec fn step_entry_copied(o: FileSystemCore, n: FileSystemCore, base: Seq<Frame>, source: Seq<char>, dest: Seq<char>, apply: ApplyToAll, r: Result<(), String>, eff: Effect) -> bool {
    match r {
        Err(e) => entry_failed(o, n, base, "Copy File: "@, e, apply, eff),
        Ok(()) => {
            &&& pushed(o, n, OperationFS::Copy, source, dest)
            &&& n.current_dir == o.current_dir && n.file_list == o.file_list && n.clipboard
                == o.clipboard
            &&& n.state == o.state
            &&& hands_down(n, base, Ret::Entry(Ok(()), apply), eff)
        },
    }
}

/// A failed move of an entry fails the paste; a done one is recorded when
/// `each` entry is.
pub open spec fn step_entry_moved(o: FileSystemCore, n: FileSystemCore, base: Seq<Frame>, source: Seq<char>, dest: Seq<char>, each: bool, apply: ApplyToAll, r: Result<(), String>, eff: Effect) -> bool {
    match r {
        Err(e) => entry_failed(o, n, base, "Move File: "@, e, apply, eff),
        Ok(()) => {
            &&& if each {
                pushed(o, n, OperationFS::Move, source, dest)
            } else {
                n.history == o.history
            }
            &&& n.current_dir == o.current_dir && n.file_list == o.file_list && n.clipboard
                == o.clipboard
            &&& n.state == o.state
            &&& hands_down(n, base, Ret::Entry(Ok(()), apply), eff)
        },
    }
}

/// A failed creation of a directory entry fails the paste; otherwise the
/// creation of a `fresh` directory is recorded by a copy, and by a move
/// that records `each` entry (one that existed is not recorded, so that
/// undoing keeps it), and the content of its source is read.
pub open spec fn step_entry_dir_created(o: FileSystemCore, n: FileSystemCore, base: Seq<Frame>, source: Seq<char>, dest: Seq<char>, is_copy: bool, each: bool, fresh: bool, apply: ApplyToAll, r: Result<(), String>, eff: Effect) -> bool {
    match r {
        Err(e) => entry_failed(o, n, base, "Create DIR: "@, e, apply, eff),
        Ok(()) => {
            &&& if fresh && (is_copy || each) {
                pushed(o, n, OperationFS::New, Seq::empty(), dest)
            } else {
                n.history == o.history
            }
            &&& n.current_dir == o.current_dir && n.file_list == o.file_list && n.clipboard
                == o.clipboard
            &&& n.state == o.state
            &&& n.frames@.len() == base.len() + 2
            &&& n.frames@.take(base.len() as int) =~= base
            &&& n.frames@[base.len() as int] matches Frame::EntrySub { source: s, is_copy: c, each: e, apply: a }
                && s@ == source && c == is_copy && e == each && a == apply
            &&& n.frames@.last() matches Frame::Listing { source: s, dest: d, is_copy: c, each: e } && s@
                == source && d@ == dest && c == is_copy && e == each
            &&& eff matches Effect::ReadDir(p) && p@ == source
        },
    }
}

/// The content of a directory entry is done: a failure fails the paste, a
/// moved source is removed.
pub open spec fn step_entry_sub(o: FileSystemCore, n: FileSystemCore, base: Seq<Frame>, source: Seq<char>, is_copy: bool, each: bool, apply: ApplyToAll, r: Result<(), PasteAbort>, eff: Effect) -> bool {
    &&& same_data(o, n)
    &&& n.state == o.state
    &&& match r {
        Err(x) => hands_down(n, base, Ret::Entry(Err(x), apply), eff),
        Ok(()) => if is_copy {
            hands_down(n, base, Ret::Entry(Ok(()), apply), eff)
        } else {
            n.frames@ =~= base.push(Frame::EntrySourceRemoved { apply }) && (eff matches Effect::RemoveDir(p)
                && p@ == source)
        },
    }
}

impl FileSystemCore {
    /// Asks for the copy or move of one file entry.
    fn start_entry_transfer(&mut self, source: String, dest: String, is_copy: bool, each: bool, apply: ApplyToAll) -> (eff: Effect)
        ensures
            entry_transferring(*old(self), *final(self), old(self).frames@, source@, dest@, is_copy, each, apply, eff),
            final(self).ret == old(self).ret,
    {
        if is_copy {
            let s = source.clone();
            let d = dest.clone();
            self.frames.push(Frame::EntryCopy { source, dest, apply });
            Effect::Copy(s, d)
        } else {
            let s = source.clone();
            let d = dest.clone();
            self.frames.push(Frame::EntryMove { source, dest, each, apply });
            Effect::Move(s, d)
        }
    }

    /// One entry goes on to `dest` with the answer `handler`.
    fn entry_proceed(
        &mut self,
        source: String,
        dest: String,
        handler: DuplicatedFileHandleOps,
        all: bool,
        is_dir: bool,
        is_copy: bool, each: bool,
        apply: ApplyToAll,
    ) -> (eff: Effect)
        ensures
            entry_proceeding(*old(self), *final(self), old(self).frames@, source@, dest@, handler, all, is_dir, is_copy, each, eff),
    {
        let mut apply = apply;
        apply.update(&handler, all, is_dir);
        if is_dir {
            let p = dest.clone();
            let fresh = matches!(handler, DuplicatedFileHandleOps::NoConflict);
            self.frames.push(Frame::EntryDirCreated { source, dest, is_copy, each, fresh, apply });
            Effect::CreateAll(p)
        } else if matches!(handler, DuplicatedFileHandleOps::Overwrite) {
            let p = dest.clone();
            let d = dest.clone();
            self.frames.push(Frame::EntryRemoved { source, dest: d, is_copy, each, apply });
            self.frames.push(Frame::RemoveProbe { path: dest });
            Effect::Probe(p)
        } else {
            self.start_entry_transfer(source, dest, is_copy, each, apply)
        }
    }

    /// The probe of an entry's destination arrived.
    fn on_entry_probe(
        &mut self,
        source: String,
        dest: String,
        is_dir: bool,
        is_copy: bool, each: bool,
        apply: ApplyToAll,
        found: bool,
    ) -> (eff: Effect)
        ensures
            step_entry_probe(*old(self), *final(self), old(self).frames@, source, dest, is_dir, is_copy, each, apply, found, eff),
    {
        if !found {
            return self.entry_proceed(
                source,
                dest,
                DuplicatedFileHandleOps::NoConflict,
                false,
                is_dir,
                is_copy, each,
                apply,
            );
        }
        let stored = match apply.get(is_dir) {
            Some(h) => Some(h.clone()),
            None => None,
        };
        match stored {
            Some(h) => self.entry_proceed(source, dest, h, true, is_dir, is_copy, each, apply),
            None => {
                let p = dest.clone();
                self.frames.push(Frame::EntryResolved { source, is_dir, is_copy, each, apply });
                self.frames.push(Frame::Resolve { current: dest, is_dir, asked: false });
                Effect::Probe(p)
            },
        }
    }

    /// The conflict on an entry's destination was resolved.
    fn on_entry_resolved(&mut self, source: String, is_dir: bool, is_copy: bool, each: bool, apply: ApplyToAll, r: Resolved) -> (eff: Effect)
        ensures
            step_entry_resolved(*old(self), *final(self), old(self).frames@, source@, is_dir, is_copy, each, apply, r, eff),
    {
        match r {
            Resolved::Cancel => self.give(Ret::Entry(Err(PasteAbort::Cancel), apply)),
            Resolved::Skip(all) => {
                let mut apply = apply;
                apply.update(&DuplicatedFileHandleOps::Skip, all, is_dir);
                self.give(Ret::Entry(Ok(()), apply))
            },
            Resolved::Proceed(dest, handler, all) => self.entry_proceed(
                source,
                dest,
                handler,
                all,
                is_dir,
                is_copy, each,
                apply,
            ),
        }
    }

    /// Reports a failed step of an entry and fails the paste.
    fn entry_fail(&mut self, prefix: &str, e: String, apply: ApplyToAll) -> (eff: Effect)
        ensures
            entry_failed(*old(self), *final(self), old(self).frames@, prefix@, e, apply, eff),
    {
        self.set_state(StateFlag::Error, message(prefix, e.as_str()));
        self.give(Ret::Entry(Err(PasteAbort::Error), apply))
    }

    /// The removal of an entry's overwritten target went as `r`.
    fn on_entry_removed(&mut self, source: String, dest: String, is_copy: bool, each: bool, apply: ApplyToAll, r: Result<(), String>) -> (eff: Effect)
        ensures
            match r {
                Err(e) => entry_failed(*old(self), *final(self), old(self).frames@, "Overwrite File: "@, e, apply, eff),
                Ok(()) => entry_transferring(*old(self), *final(self), old(self).frames@, source@, dest@, is_copy, each, apply, eff),
            },
    {
        match r {
            Err(e) => self.entry_fail("Overwrite File: ", e, apply),
            Ok(()) => self.start_entry_transfer(source, dest, is_copy, each, apply),
        }
    }

    /// The copy of a file entry went as `r`.
    fn on_entry_copied(&mut self, source: String, dest: String, apply: ApplyToAll, r: Result<(), String>) -> (eff: Effect)
        requires
            old(self).wf(),
        ensures
            final(self).wf(),
            step_entry_copied(*old(self), *final(self), old(self).frames@, source@, dest@, apply, r, eff),
    {
        match r {
            Err(e) => self.entry_fail("Copy File: ", e, apply),
            Ok(()) => {
                self.push_history(OperationFS::Copy, source, dest);
                self.give(Ret::Entry(Ok(()), apply))
            },
        }
    }

    /// The move of a file entry went as `r`.
    fn on_entry_moved(&mut self, source: String, dest: String, each: bool, apply: ApplyToAll, r: Result<(), String>) -> (eff: Effect)
        requires
            old(self).wf(),
        ensures
            final(self).wf(),
            step_entry_moved(*old(self), *final(self), old(self).frames@, source@, dest@, each, apply, r, eff),
    {
        match r {
            Err(e) => self.entry_fail("Move File: ", e, apply),
            Ok(()) => {
                if each {
                    self.push_history(OperationFS::Move, source, dest);
                }
                self.give(Ret::Entry(Ok(()), apply))
            },
        }
    }

    /// The creation of a directory entry went as `r`.
    fn on_entry_dir_created(&mut self, source: String, dest: String, is_copy: bool, each: bool, fresh: bool, apply: ApplyToAll, r: Result<(), String>) -> (eff: Effect)
        requires
            old(self).wf(),
        ensures
            final(self).wf(),
            step_entry_dir_created(*old(self), *final(self), old(self).frames@, source@, dest@, is_copy, each, fresh, apply, r, eff),
    {
        match r {
            Err(e) => self.entry_fail("Create DIR: ", e, apply),
            Ok(()) => {
                if fresh && (is_copy || each) {
                    self.push_history(OperationFS::New, String::new(), dest.clone());
                }
                let s = source.clone();
                self.frames.push(Frame::EntrySub { source: source.clone(), is_copy, each, apply });
                self.frames.push(Frame::Listing { source, dest, is_copy, each });
                Effect::ReadDir(s)
            },
        }
    }

    /// The content of a directory entry is done.
    fn on_entry_sub(&mut self, source: String, is_copy: bool, each: bool, apply: ApplyToAll, r: Result<(), PasteAbort>) -> (eff: Effect)
        ensures
            step_entry_sub(*old(self), *final(self), old(self).frames@, source@, is_copy, each, apply, r, eff),
    {
        match r {
            Err(x) => self.give(Ret::Entry(Err(x), apply)),
            Ok(()) => if is_copy {
                self.give(Ret::Entry(Ok(()), apply))
            } else {
                self.frames.push(Frame::EntrySourceRemoved { apply });
                Effect::RemoveDir(source)
            },
        }
    }

    /// The removal of a moved directory entry's source went as `r`.
    fn on_entry_source_removed(&mut self, apply: ApplyToAll, r: Result<(), String>) -> (eff: Effect)
        ensures
            match r {
                Err(e) => entry_failed(*old(self), *final(self), old(self).frames@, "Remove Source DIR: "@, e, apply, eff),
                Ok(()) => entry_done(*old(self), *final(self), old(self).frames@, apply, eff),
            },
    {
        match r {
            Err(e) => self.entry_fail("Remove Source DIR: ", e, apply),
            Ok(()) => self.give(Ret::Entry(Ok(()), apply)),
        }
    }
}

/// The undo ends: the directory is listed again, then `Undone` is shown.
pub open spec fn undo_finishing(o: FileSystemCore, n: FileSystemCore, base: Seq<Frame>, eff: Effect) -> bool {
    refreshing(o, n, base.push(Frame::UndoFinish), eff) && n.history == o.history
}

/// The history of `n` is that of `o` without its newest record.
pub open spec fn popped(o: FileSystemCore, n: FileSystemCore) -> bool {
    &&& n.history.log_view() == crate::fs_info::history::pop_log(o.history.log_view()).1
    &&& n.history.available_view() == o.history.available_view()
    &&& n.history.path_view() == o.history.path_view()
}

/// An undo starts: without a kept history it is refused; the newest record
/// is taken off the history, and what it did is reverted: a copy or a
/// creation is removed, a move or a rename moved back (after probing the
/// destination), a directory change returns to the old directory, a range
/// is undone record by record; a removal cannot be undone.
pub open spec fn step_undo_start(o: FileSystemCore, n: FileSystemCore, base: Seq<Frame>, eff: Effect) -> bool {
    if !o.history.available_view() {
        same_data(o, n) && shows(n, StateFlag::Error, "Undo Not Available!"@) && hands_down(
            n,
            base,
            Ret::Unit,
            eff,
        )
    } else {
        &&& popped(o, n)
        &&& n.clipboard == o.clipboard
        &&& match crate::fs_info::history::pop_log(o.history.log_view()).0 {
            None => n.current_dir == o.current_dir && n.file_list == o.file_list && shows(
                n,
                StateFlag::Error,
                "Nothing to undo"@,
            ) && hands_down(n, base, Ret::Unit, eff),
            Some(u) => match u.operation {
                OperationFS::ChangeDir => {
                    &&& n.current_dir == u.file_source
                    &&& n.file_list.files_view() == o.file_list.files_view()
                    &&& n.file_list.selected() is None
                    &&& shows(n, StateFlag::Operating, "Undo"@)
                    &&& n.frames@ =~= base.push(Frame::UndoChangeDir).push(Frame::Refresh)
                    &&& eff matches Effect::List(p) && p@ == u.file_source@
                },
                _ => n.current_dir == o.current_dir && n.file_list == o.file_list && match u.operation {
                    OperationFS::Copy | OperationFS::New | OperationFS::Move | OperationFS::Rename =>
                        shows(n, StateFlag::Operating, "Undo"@) && n.frames@ =~= base.push(
                        Frame::UndoProbe { unit: u },
                    ) && (eff matches Effect::Probe(p) && p@ == u.file_destiny@),
                    OperationFS::Remove => shows(
                        n,
                        StateFlag::Error,
                        "Cannot undo remove operation (not recoverable)"@,
                    ) && hands_down(n, base, Ret::Unit, eff),
                    OperationFS::EndRange => shows(n, StateFlag::Operating, "Undo"@) && n.frames@
                        =~= base.push(Frame::UndoRange) && n.ret == Ret::Unit && eff is Continue,
                    OperationFS::StartRange => shows(
                        n,
                        StateFlag::Error,
                        "Unexpected StartRange in undo"@,
                    ) && hands_down(n, base, Ret::Unit, eff),
                    _ => shows(n, StateFlag::Operating, "Undo"@) && hands_down(n, base, Ret::Unit, eff),
                },
            },
        }
    }
}

/// The probe of an undone record's destination arrived: an existing copy or
/// creation is removed; an existing moved or renamed path is moved back
/// (after creating the parent of a moved file's source); a missing move or
/// rename target is an error; a missing copy or creation leaves nothing to
/// do.
pub open spec fn step_undo_probe(o: FileSystemCore, n: FileSystemCore, base: Seq<Frame>, unit: OperationUnitFS, found: bool, is_dir: bool, eff: Effect) -> bool {
    match unit.operation {
        OperationFS::Copy | OperationFS::New => if found {
            same_data(o, n) && n.state == o.state && n.frames@ =~= base.push(
                Frame::UndoRemove { op: unit.operation },
            ) && (eff matches Effect::Remove(p, d) && p@ == unit.file_destiny@ && d == is_dir)
        } else {
            undo_finishing(o, n, base, eff)
        },
        OperationFS::Move => if found {
            same_data(o, n) && n.state == o.state && match std_parent(unit.file_source@) {
                Some(pp) => n.frames@ =~= base.push(Frame::UndoParent { unit }) && (eff matches Effect::CreateAll(q)
                    && q@ == pp),
                None => n.frames@ =~= base.push(Frame::UndoMoveBack { op: OperationFS::Move }) && (
                eff matches Effect::Move(a, b) && a@ == unit.file_destiny@ && b@
                    == unit.file_source@),
            }
        } else {
            same_data(o, n) && shows(n, StateFlag::Error, "Undo Move: Target file doesn't exist"@)
                && hands_down(n, base, Ret::Unit, eff)
        },
        OperationFS::Rename => if found {
            same_data(o, n) && n.state == o.state && n.frames@ =~= base.push(
                Frame::UndoMoveBack { op: OperationFS::Rename },
            ) && (eff matches Effect::Move(a, b) && a@ == unit.file_destiny@ && b@
                == unit.file_source@)
        } else {
            same_data(o, n) && shows(n, StateFlag::Error, "Undo Rename: Renamed file doesn't exist"@)
                && hands_down(n, base, Ret::Unit, eff)
        },
        _ => same_data(o, n) && n.state == o.state && hands_down(n, base, Ret::Unit, eff),
    }
}

/// The removal of an undone copy or creation went as `r`.
pub open spec fn step_undo_removed(o: FileSystemCore, n: FileSystemCore, base: Seq<Frame>, op: OperationFS, r: Result<(), String>, eff: Effect) -> bool {
    match r {
        Err(e) => same_data(o, n) && hands_down(n, base, Ret::Unit, eff) && shows(
            n,
            StateFlag::Error,
            (if op is Copy {
                "Undo Copy: Failed to remove copied file: "@
            } else {
                "Undo New: Failed to remove new file: "@
            }) + e@,
        ),
        Ok(()) => undo_finishing(o, n, base, eff),
    }
}

/// The move back of an undone move or rename went as `r`.
pub open spec fn step_undo_moved_back(o: FileSystemCore, n: FileSystemCore, base: Seq<Frame>, op: OperationFS, r: Result<(), String>, eff: Effect) -> bool {
    match r {
        Err(e) => same_data(o, n) && hands_down(n, base, Ret::Unit, eff) && shows(
            n,
            StateFlag::Error,
            (if op is Move {
                "Undo Move: Failed to move file back: "@
            } else {
                "Undo Rename: Failed to restore original name: "@
            }) + e@,
        ),
        Ok(()) => undo_finishing(o, n, base, eff),
    }
}

/// One more record of a range is undone: the start of the range, or an
/// empty history, ends the range; after an error the record and the end of
/// the range go back on the history and the undo stops; otherwise the
/// record goes back on the history and is undone in turn.
pub open spec fn step_undo_range(o: FileSystemCore, n: FileSystemCore, base: Seq<Frame>, eff: Effect) -> bool {
    let (top, rest) = crate::fs_info::history::pop_log(o.history.log_view());
    let av = o.history.available_view();
    match top {
        None => popped(o, n) && refreshing(o, n, base.push(Frame::UndoFinish), eff),
        Some(u) => if u.operation == OperationFS::StartRange {
            popped(o, n) && refreshing(o, n, base.push(Frame::UndoFinish), eff)
        } else {
            &&& n.history.available_view() == av
            &&& n.history.path_view() == o.history.path_view()
            &&& n.current_dir == o.current_dir && n.file_list == o.file_list && n.clipboard
                == o.clipboard
            &&& n.state == o.state
            &&& if o.state.flag_view() == StateFlag::Error {
                &&& exists|e: OperationUnitFS|
                    record(OperationFS::EndRange, Seq::empty(), Seq::empty(), e)
                        && n.history.log_view() == crate::fs_info::history::push_log(
                        crate::fs_info::history::push_log(rest, av, u),
                        av,
                        e,
                    )
                &&& hands_down(n, base, Ret::Unit, eff)
            } else {
                &&& n.history.log_view() == crate::fs_info::history::push_log(rest, av, u)
                &&& n.frames@ =~= base.push(Frame::UndoRange).push(Frame::UndoStart)
                &&& eff is Continue
            }
        },
    }
}

impl FileSystemCore {
    /// Ends an undo: the directory is listed again, then `Undone` shown.
    fn finish_undo(&mut self) -> (eff: Effect)
        requires
            old(self).wf(),
        ensures
            final(self).wf(),
            undo_finishing(*old(self), *final(self), old(self).frames@, eff),
    {
        self.frames.push(Frame::UndoFinish);
        self.start_refresh()
    }

    /// Starts the undo of the newest record.
    fn begin_undo(&mut self) -> (eff: Effect)
        requires
            old(self).wf(),
        ensures
            final(self).wf(),
            step_undo_start(*old(self), *final(self), old(self).frames@, eff),
    {
        if !self.history.is_available() {
            self.set_state(StateFlag::Error, String::from_str("Undo Not Available!"));
            return self.give(Ret::Unit);
        }
        self.set_state(StateFlag::Operating, String::from_str("Undo"));
        match self.history.pop() {
            None => {
                self.set_state(StateFlag::Error, String::from_str("Nothing to undo"));
                self.give(Ret::Unit)
            },
            Some(u) => match u.operation {
                OperationFS::Copy | OperationFS::New | OperationFS::Move | OperationFS::Rename => {
                    let p = u.file_destiny.clone();
                    self.frames.push(Frame::UndoProbe { unit: u });
                    Effect::Probe(p)
                },
                OperationFS::ChangeDir => {
                    self.current_dir = u.file_source;
                    self.frames.push(Frame::UndoChangeDir);
                    self.start_refresh()
                },
                OperationFS::Remove => {
                    self.set_state(
                        StateFlag::Error,
                        String::from_str("Cannot undo remove operation (not recoverable)"),
                    );
                    self.give(Ret::Unit)
                },
                OperationFS::EndRange => {
                    self.frames.push(Frame::UndoRange);
                    self.give(Ret::Unit)
                },
                OperationFS::StartRange => {
                    self.set_state(StateFlag::Error, String::from_str("Unexpected StartRange in undo"));
                    self.give(Ret::Unit)
                },
                OperationFS::Nothing => self.give(Ret::Unit),
            },
        }
    }

    /// The probe of an undone record's destination arrived.
    fn on_undo_probe(&mut self, unit: OperationUnitFS, found: bool, is_dir: bool) -> (eff: Effect)
        requires
            old(self).wf(),
        ensures
            final(self).wf(),
            step_undo_probe(*old(self), *final(self), old(self).frames@, unit, found, is_dir, eff),
    {
        match unit.operation {
            OperationFS::Copy | OperationFS::New => if found {
                self.frames.push(Frame::UndoRemove { op: unit.operation });
                Effect::Remove(unit.file_destiny, is_dir)
            } else {
                self.finish_undo()
            },
            OperationFS::Move => if found {
                match parent(unit.file_source.as_str()) {
                    Some(pp) => {
                        self.frames.push(Frame::UndoParent { unit });
                        Effect::CreateAll(pp)
                    },
                    None => {
                        self.frames.push(Frame::UndoMoveBack { op: OperationFS::Move });
                        Effect::Move(unit.file_destiny, unit.file_source)
                    },
                }
            } else {
                self.set_state(StateFlag::Error, String::from_str("Undo Move: Target file doesn't exist"));
                self.give(Ret::Unit)
            },
            OperationFS::Rename => if found {
                self.frames.push(Frame::UndoMoveBack { op: OperationFS::Rename });
                Effect::Move(unit.file_destiny, unit.file_source)
            } else {
                self.set_state(StateFlag::Error, String::from_str("Undo Rename: Renamed file doesn't exist"));
                self.give(Ret::Unit)
            },
            _ => self.give(Ret::Unit),
        }
    }

    /// The removal of an undone copy or creation went as `r`.
    fn on_undo_removed(&mut self, op: OperationFS, r: Result<(), String>) -> (eff: Effect)
        requires
            old(self).wf(),
        ensures
            final(self).wf(),
            step_undo_removed(*old(self), *final(self), old(self).frames@, op, r, eff),
    {
        match r {
            Err(e) => {
                let m = if matches!(op, OperationFS::Copy) {
                    message("Undo Copy: Failed to remove copied file: ", e.as_str())
                } else {
                    message("Undo New: Failed to remove new file: ", e.as_str())
                };
                self.set_state(StateFlag::Error, m);
                self.give(Ret::Unit)
            },
            Ok(()) => self.finish_undo(),
        }
    }

    /// The parent of a moved file's source was created (or not): the file
    /// is moved back.
    fn on_undo_parent(&mut self, unit: OperationUnitFS) -> (eff: Effect)
        ensures
            same_data(*old(self), *final(self)),
            final(self).state == old(self).state,
            final(self).frames@ =~= old(self).frames@.push(Frame::UndoMoveBack { op: OperationFS::Move }),
            eff matches Effect::Move(a, b) && a@ == unit.file_destiny@ && b@ == unit.file_source@,
    {
        self.frames.push(Frame::UndoMoveBack { op: OperationFS::Move });
        Effect::Move(unit.file_destiny, unit.file_source)
    }

    /// The move back of an undone move or rename went as `r`.
    fn on_undo_moved_back(&mut self, op: OperationFS, r: Result<(), String>) -> (eff: Effect)
        requires
            old(self).wf(),
        ensures
            final(self).wf(),
            step_undo_moved_back(*old(self), *final(self), old(self).frames@, op, r, eff),
    {
        match r {
            Err(e) => {
                let m = if matches!(op, OperationFS::Move) {
                    message("Undo Move: Failed to move file back: ", e.as_str())
                } else {
                    message("Undo Rename: Failed to restore original name: ", e.as_str())
                };
                self.set_state(StateFlag::Error, m);
                self.give(Ret::Unit)
            },
            Ok(()) => self.finish_undo(),
        }
    }

    /// One more record of a range is undone.
    fn undo_range_step(&mut self) -> (eff: Effect)
        requires
            old(self).wf(),
        ensures
            final(self).wf(),
            step_undo_range(*old(self), *final(self), old(self).frames@, eff),
    {
        match self.history.pop() {
            None => self.finish_undo(),
            Some(u) => {
                if u.operation == OperationFS::StartRange {
                    self.finish_undo()
                } else if self.state.flag() == StateFlag::Error {
                    self.history.push(u);
                    self.push_history(OperationFS::EndRange, String::new(), String::new());
                    self.give(Ret::Unit)
                } else {
                    self.history.push(u);
                    self.frames.push(Frame::UndoRange);
                    self.frames.push(Frame::UndoStart);
                    Effect::Continue
                }
            },
        }
    }
}

/// What one step does, by the frame on top of the stack and the event
/// handed back; an event the frame does not await, or a value handed down
/// that it does not expect, stops the operation.
pub open spec fn step_post(o: FileSystemCore, n: FileSystemCore, ev: Event, eff: Effect) -> bool {
    if o.frames@.len() == 0 {
        same_data(o, n) && n.state == o.state && n.frames@.len() == 0 && eff is Done
    } else {
        let base = o.frames@.drop_last();
        let ret = o.ret;
        match (o.frames@.last(), ev) {
            (Frame::Refresh, Event::Listing(items, err)) => step_refreshed(o, n, base, items@, err, eff),
            (Frame::Resolve { current, is_dir, asked: false }, Event::Probe(found, _)) => resolve_next(
                o,
                n,
                base,
                is_dir,
                resolve_step(current@, found, None),
                eff,
            ),
            (Frame::Resolve { current, is_dir, asked: true }, Event::Answer(h, a)) => resolve_next(
                o,
                n,
                base,
                is_dir,
                resolve_step(current@, true, Some((h, a))),
                eff,
            ),
            (Frame::RemoveProbe { path }, Event::Probe(_, d)) => step_remove_probe(o, n, base, path@, d, eff),
            (Frame::RemoveWait, Event::Outcome(r)) => same_data(o, n) && n.state == o.state
                && hands_down(n, base, Ret::Outcome(r), eff),
            (Frame::Removed, Event::Go) => match ret {
                Ret::Outcome(r) => step_removed(o, n, base, r, eff),
                _ => aborted(o, n, eff),
            },
            (Frame::NewFileProbe { name, dest, is_dir }, Event::Probe(f, _)) => step_new_probe(
                o,
                n,
                base,
                name@,
                dest,
                is_dir,
                f,
                eff,
            ),
            (Frame::NewFileCreate { dest, is_dir }, Event::Outcome(r)) => step_new_created(o, n, base, dest@, is_dir, r, eff),
            (Frame::PasteProbe { source, is_copy, dest_dir }, Event::Probe(_, d)) => if d {
                paste_dir_started(o, n, base.push(Frame::PasteWait), source, dest_dir@, is_copy, eff)
            } else {
                paste_file_started(o, n, base.push(Frame::PasteWait), source, dest_dir@, is_copy, eff)
            },
            (Frame::PasteWait, Event::Go) => refreshing(o, n, base, eff) && n.history == o.history,
            (Frame::FileResolved { source, is_copy }, Event::Go) => match ret {
                Ret::File(r) => step_file_resolved(o, n, base, source, is_copy, file_resolved(r), eff),
                _ => aborted(o, n, eff),
            },
            (Frame::FileRemoved { source, dest, is_copy }, Event::Go) => match ret {
                Ret::Outcome(r) => step_file_removed(o, n, base, source@, dest@, is_copy, r, eff),
                _ => aborted(o, n, eff),
            },
            (Frame::FileTransfer { source, dest, is_copy }, Event::Outcome(r)) => step_file_transferred(
                o,
                n,
                base,
                source@,
                dest@,
                is_copy,
                r,
                eff,
            ),
            (Frame::DirResolved { source, is_copy }, Event::Go) => match ret {
                Ret::Dir(r) => step_dir_resolved(o, n, base, source, is_copy, dir_resolved(r), eff),
                _ => aborted(o, n, eff),
            },
            (Frame::DirCreated { source, root, is_copy, fresh }, Event::Outcome(r)) => step_dir_created(
                o,
                n,
                base,
                source@,
                root@,
                is_copy,
                fresh,
                r,
                eff,
            ),
            (Frame::DirPasted { source, is_copy }, Event::Go) => match ret {
                Ret::Abort(r) => step_dir_pasted(o, n, base, source@, is_copy, r, eff),
                _ => aborted(o, n, eff),
            },
            (Frame::DirSourceRemoved, Event::Outcome(r)) => step_dir_source_removed(o, n, base, r, eff),
            (Frame::Listing { source: _, dest, is_copy, each }, Event::Entries(e)) => step_listing(
                o,
                n,
                base,
                dest,
                is_copy, each,
                e,
                eff,
            ),
            (Frame::Walk { dest, is_copy, each, apply, items, next }, Event::Go) => step_walk(
                o,
                n,
                base,
                dest,
                is_copy, each,
                apply,
                items,
                next,
                ret,
                eff,
            ),
            (Frame::EntryProbe { source, dest, is_dir, is_copy, each, apply }, Event::Probe(f, _)) =>
                step_entry_probe(o, n, base, source, dest, is_dir, is_copy, each, apply, f, eff),
            (Frame::EntryResolved { source, is_dir, is_copy, each, apply }, Event::Go) => match ret {
                Ret::File(r) => step_entry_resolved(o, n, base, source@, is_dir, is_copy, each, apply, file_resolved(r), eff),
                Ret::Dir(r) => step_entry_resolved(o, n, base, source@, is_dir, is_copy, each, apply, dir_resolved(r), eff),
                _ => aborted(o, n, eff),
            },
            (Frame::EntryRemoved { source, dest, is_copy, each, apply }, Event::Go) => match ret {
                Ret::Outcome(Err(e)) => entry_failed(o, n, base, "Overwrite File: "@, e, apply, eff),
                Ret::Outcome(Ok(())) => entry_transferring(o, n, base, source@, dest@, is_copy, each, apply, eff),
                _ => aborted(o, n, eff),
            },
            (Frame::EntryCopy { source, dest, apply }, Event::Outcome(r)) => step_entry_copied(
                o,
                n,
                base,
                source@,
                dest@,
                apply,
                r,
                eff,
            ),
            (Frame::EntryMove { source, dest, each, apply }, Event::Outcome(r)) => step_entry_moved(
                o,
                n,
                base,
                source@,
                dest@,
                each,
                apply,
                r,
                eff,
            ),
            (Frame::EntryDirCreated { source, dest, is_copy, each, fresh, apply }, Event::Outcome(r)) =>
                step_entry_dir_created(o, n, base, source@, dest@, is_copy, each, fresh, apply, r, eff),
            (Frame::EntrySub { source, is_copy, each, apply }, Event::Go) => match ret {
                Ret::Abort(r) => step_entry_sub(o, n, base, source@, is_copy, each, apply, r, eff),
                _ => aborted(o, n, eff),
            },
            (Frame::EntrySourceRemoved { apply }, Event::Outcome(r)) => match r {
                Err(e) => entry_failed(o, n, base, "Remove Source DIR: "@, e, apply, eff),
                Ok(()) => entry_done(o, n, base, apply, eff),
            },
            (Frame::UndoStart, Event::Go) => step_undo_start(o, n, base, eff),
            (Frame::UndoProbe { unit }, Event::Probe(f, d)) => step_undo_probe(o, n, base, unit, f, d, eff),
            (Frame::UndoRemove { op }, Event::Outcome(r)) => step_undo_removed(o, n, base, op, r, eff),
            (Frame::UndoParent { unit }, Event::Outcome(_)) => same_data(o, n) && n.state == o.state
                && n.frames@ =~= base.push(Frame::UndoMoveBack { op: OperationFS::Move }) && (
            eff matches Effect::Move(a, b) && a@ == unit.file_destiny@ && b@ == unit.file_source@),
            (Frame::UndoMoveBack { op }, Event::Outcome(r)) => step_undo_moved_back(o, n, base, op, r, eff),
            (Frame::UndoRange, Event::Go) => step_undo_range(o, n, base, eff),
            (Frame::UndoFinish, Event::Go) => same_data(o, n) && shows(n, StateFlag::Ready, "Undone"@)
                && hands_down(n, base, Ret::Unit, eff),
            (Frame::UndoChangeDir, Event::Go) => undo_finishing(o, n, base, eff),
            (Frame::RenameMove { from, to }, Event::Outcome(r)) => step_renamed(o, n, base, from@, to@, r, eff),
            (Frame::ChangeDirProbe { target }, Event::Probe(f, d)) => step_change_probe(o, n, base, target@, f, d, eff),
            (Frame::ChangeDirWait, Event::Go) => same_data(o, n) && n.state == o.state && hands_down(
                n,
                base,
                Ret::Outcome(Ok(())),
                eff,
            ),
            (Frame::ParentWait, Event::Go) => match ret {
                Ret::Outcome(r) => step_parent_done(o, n, base, r, eff),
                _ => aborted(o, n, eff),
            },
            (Frame::EnterWait { name }, Event::Go) => match ret {
                Ret::Outcome(r) => step_enter_done(o, n, base, name@, r, eff),
                _ => aborted(o, n, eff),
            },
            _ => aborted(o, n, eff),
        }
    }
}

impl FileSystemCore {
    /// Stops the operation under way.
    fn abort(&mut self) -> (eff: Effect)
        ensures
            aborted(*old(self), *final(self), eff),
    {
        self.frames = Vec::new();
        Effect::Done
    }

    /// Takes the value handed down by the last finished step.
    fn take_ret(&mut self) -> (r: Ret)
        ensures
            r == old(self).ret,
            same_data(*old(self), *final(self)),
            final(self).state == old(self).state,
            final(self).frames == old(self).frames,
    {
        let mut r = Ret::Unit;
        std::mem::swap(&mut r, &mut self.ret);
        r
    }

    /// The next step of the operation under way, given what the last effect
    /// gave (`Event::Go` after `Effect::Continue`). Once it returns
    /// `Effect::Done` the core is idle.
    #[verifier::rlimit(60)]
    pub fn resume(&mut self, ev: Event) -> (eff: Effect)
        requires
            old(self).wf(),
        ensures
            final(self).wf(),
            step_post(*old(self), *final(self), ev, eff),
    {
        let top = match self.frames.pop() {
            None => return Effect::Done,
            Some(f) => f,
        };
        match top {
            Frame::Refresh => match ev {
                Event::Listing(items, err) => self.on_listing(items, err),
                _ => self.abort(),
            },
            Frame::Resolve { current, is_dir, asked } => if !asked {
                match ev {
                    Event::Probe(found, _) => self.resolve(current, is_dir, found, None),
                    _ => self.abort(),
                }
            } else {
                match ev {
                    Event::Answer(h, a) => self.resolve(current, is_dir, true, Some((h, a))),
                    _ => self.abort(),
                }
            },
            Frame::RemoveProbe { path } => match ev {
                Event::Probe(_, d) => self.on_remove_probe(path, d),
                _ => self.abort(),
            },
            Frame::RemoveWait => match ev {
                Event::Outcome(r) => self.give(Ret::Outcome(r)),
                _ => self.abort(),
            },
            Frame::NewFileProbe { name, dest, is_dir } => match ev {
                Event::Probe(f, _) => self.on_new_probe(name, dest, is_dir, f),
                _ => self.abort(),
            },
            Frame::NewFileCreate { dest, is_dir } => match ev {
                Event::Outcome(r) => self.on_new_created(dest, is_dir, r),
                _ => self.abort(),
            },
            Frame::PasteProbe { source, is_copy, dest_dir } => match ev {
                Event::Probe(_, d) => self.on_paste_probe(source, is_copy, dest_dir, d),
                _ => self.abort(),
            },
            Frame::PasteWait => match ev {
                Event::Go => self.start_refresh(),
                _ => self.abort(),
            },
            Frame::FileResolved { source, is_copy } => match ev {
                Event::Go => match self.take_ret() {
                    Ret::File(r) => self.on_file_resolved(source, is_copy, of_file(r)),
                    _ => self.abort(),
                },
                _ => self.abort(),
            },
            Frame::Removed => match ev {
                Event::Go => match self.take_ret() {
                    Ret::Outcome(r) => self.on_removed(r),
                    _ => self.abort(),
                },
                _ => self.abort(),
            },
            Frame::FileRemoved { source, dest, is_copy } => match ev {
                Event::Go => match self.take_ret() {
                    Ret::Outcome(r) => self.on_file_removed(source, dest, is_copy, r),
                    _ => self.abort(),
                },
                _ => self.abort(),
            },
            Frame::FileTransfer { source, dest, is_copy } => match ev {
                Event::Outcome(r) => self.on_file_transferred(source, dest, is_copy, r),
                _ => self.abort(),
            },
            Frame::DirResolved { source, is_copy } => match ev {
                Event::Go => match self.take_ret() {
                    Ret::Dir(r) => self.on_dir_resolved(source, is_copy, of_dir(r)),
                    _ => self.abort(),
                },
                _ => self.abort(),
            },
            Frame::DirCreated { source, root, is_copy, fresh } => match ev {
                Event::Outcome(r) => self.on_dir_created(source, root, is_copy, fresh, r),
                _ => self.abort(),
            },
            Frame::DirPasted { source, is_copy } => match ev {
                Event::Go => match self.take_ret() {
                    Ret::Abort(r) => self.on_dir_pasted(source, is_copy, r),
                    _ => self.abort(),
                },
                _ => self.abort(),
            },
            Frame::DirSourceRemoved => match ev {
                Event::Outcome(r) => self.on_dir_source_removed(r),
                _ => self.abort(),
            },
            Frame::Listing { source: _, dest, is_copy, each } => match ev {
                Event::Entries(e) => self.on_entries(dest, is_copy, each, e),
                _ => self.abort(),
            },
            Frame::Walk { dest, is_copy, each, apply, items, next } => match ev {
                Event::Go => {
                    let r = self.take_ret();
                    self.on_walk(dest, is_copy, each, apply, items, next, r)
                },
                _ => self.abort(),
            },
            Frame::EntryProbe { source, dest, is_dir, is_copy, each, apply } => match ev {
                Event::Probe(f, _) => self.on_entry_probe(source, dest, is_dir, is_copy, each, apply, f),
                _ => self.abort(),
            },
            Frame::EntryResolved { source, is_dir, is_copy, each, apply } => match ev {
                Event::Go => match self.take_ret() {
                    Ret::File(r) => self.on_entry_resolved(source, is_dir, is_copy, each, apply, of_file(r)),
                    Ret::Dir(r) => self.on_entry_resolved(source, is_dir, is_copy, each, apply, of_dir(r)),
                    _ => self.abort(),
                },
                _ => self.abort(),
            },
            Frame::EntryRemoved { source, dest, is_copy, each, apply } => match ev {
                Event::Go => match self.take_ret() {
                    Ret::Outcome(r) => self.on_entry_removed(source, dest, is_copy, each, apply, r),
                    _ => self.abort(),
                },
                _ => self.abort(),
            },
            Frame::EntryCopy { source, dest, apply } => match ev {
                Event::Outcome(r) => self.on_entry_copied(source, dest, apply, r),
                _ => self.abort(),
            },
            Frame::EntryMove { source, dest, each, apply } => match ev {
                Event::Outcome(r) => self.on_entry_moved(source, dest, each, apply, r),
                _ => self.abort(),
            },
            Frame::EntryDirCreated { source, dest, is_copy, each, fresh, apply } => match ev {
                Event::Outcome(r) => self.on_entry_dir_created(source, dest, is_copy, each, fresh, apply, r),
                _ => self.abort(),
            },
            Frame::EntrySub { source, is_copy, each, apply } => match ev {
                Event::Go => match self.take_ret() {
                    Ret::Abort(r) => self.on_entry_sub(source, is_copy, each, apply, r),
                    _ => self.abort(),
                },
                _ => self.abort(),
            },
            Frame::EntrySourceRemoved { apply } => match ev {
                Event::Outcome(r) => self.on_entry_source_removed(apply, r),
                _ => self.abort(),
            },
            Frame::UndoStart => match ev {
                Event::Go => self.begin_undo(),
                _ => self.abort(),
            },
            Frame::UndoProbe { unit } => match ev {
                Event::Probe(f, d) => self.on_undo_probe(unit, f, d),
                _ => self.abort(),
            },
            Frame::UndoRemove { op } => match ev {
                Event::Outcome(r) => self.on_undo_removed(op, r),
                _ => self.abort(),
            },
            Frame::UndoParent { unit } => match ev {
                Event::Outcome(_) => self.on_undo_parent(unit),
                _ => self.abort(),
            },
            Frame::UndoMoveBack { op } => match ev {
                Event::Outcome(r) => self.on_undo_moved_back(op, r),
                _ => self.abort(),
            },
            Frame::UndoRange => match ev {
                Event::Go => self.undo_range_step(),
                _ => self.abort(),
            },
            Frame::UndoFinish => match ev {
                Event::Go => {
                    self.set_state(StateFlag::Ready, String::from_str("Undone"));
                    self.give(Ret::Unit)
                },
                _ => self.abort(),
            },
            Frame::UndoChangeDir => match ev {
                Event::Go => self.finish_undo(),
                _ => self.abort(),
            },
            Frame::RenameMove { from, to } => match ev {
                Event::Outcome(r) => self.on_renamed(from, to, r),
                _ => self.abort(),
            },
            Frame::ChangeDirProbe { target } => match ev {
                Event::Probe(f, d) => self.on_change_probe(target, f, d),
                _ => self.abort(),
            },
            Frame::ChangeDirWait => match ev {
                Event::Go => self.give(Ret::Outcome(Ok(()))),
                _ => self.abort(),
            },
            Frame::ParentWait => match ev {
                Event::Go => match self.take_ret() {
                    Ret::Outcome(r) => self.on_parent_done(r),
                    _ => self.abort(),
                },
                _ => self.abort(),
            },
            Frame::EnterWait { name } => match ev {
                Event::Go => match self.take_ret() {
                    Ret::Outcome(r) => self.on_enter_done(name, r),
                    _ => self.abort(),
                },
                _ => self.abort(),
            },
        }
    }
}

/// The creation of `name` in the current directory starts with the probe
/// of its path.
pub open spec fn started_new_file(o: FileSystemCore, n: FileSystemCore, name: Seq<char>, is_dir: bool, eff: Effect) -> bool {
    &&& same_data(o, n)
    &&& keeps_state(o, n)
    &&& n.frames_view().len() == 1
    &&& n.frames_view()[0] matches Frame::NewFileProbe { name: nm, dest, is_dir: d } && nm@
            == name && dest@ == std_join(o.dir_view(), name) && d == is_dir
    &&& eff matches Effect::Probe(p) && p@ == std_join(o.dir_view(), name)
}

/// The selected file went on the clipboard, or the missing selection is
/// reported.
pub open spec fn copied(o: FileSystemCore, n: FileSystemCore, is_copy: bool) -> bool {
    &&& same_place(o, n)
    &&& match o.selected_view() {
            None => n.clipboard_view() == o.clipboard_view() && shows(
                n,
                StateFlag::Error,
                "Copy/Cut File: "@ + no_selection_msg(),
            ),
            Some(i) => (n.clipboard_view() matches Some((p, c)) && p@
                == o.files_view()[i as int].path_view() && c == is_copy) && shows(
                n,
                StateFlag::Ready,
                (if is_copy {
                    "Copied: "@
                } else {
                    "Cut: "@
                }) + o.files_view()[i as int].name_view(),
            )
        }
}

/// A paste starts with the probe of the clipboard's path, or stops on an
/// empty clipboard.
pub open spec fn started_paste(o: FileSystemCore, n: FileSystemCore, eff: Effect) -> bool {
    &&& same_data(o, n)
    &&& match o.clipboard_view() {
            None => shows(n, StateFlag::Error, "Get From Clipboard: Clipboard is empty"@)
                && n.idle_view() && eff is Done,
            Some((src, c)) => {
                &&& shows(n, StateFlag::Operating, "Pasting"@)
                &&& n.frames_view().len() == 1
                &&& n.frames_view()[0] matches Frame::PasteProbe { source, is_copy, dest_dir }
                    && source@ == src@ && is_copy == c && dest_dir@ == o.dir_view()
                &&& eff matches Effect::Probe(p) && p@ == src@
            }
        }
}

/// A rename starts with the move of the selected file to its new name, or
/// stops on a missing selection or a path without parent.
pub open spec fn started_rename(o: FileSystemCore, n: FileSystemCore, new_name: Seq<char>, eff: Effect) -> bool {
    &&& same_data(o, n)
    &&& match o.selected_view() {
            None => shows(n, StateFlag::Error, "Rename: "@ + no_selection_msg())
                && n.idle_view() && eff is Done,
            Some(i) => match std_parent(o.files_view()[i as int].path_view()) {
                None => shows(n, StateFlag::Error, "Rename: path has no parent"@)
                    && n.idle_view() && eff is Done,
                Some(pp) => {
                    &&& keeps_state(o, n)
                    &&& n.frames_view().len() == 1
                    &&& n.frames_view()[0] matches Frame::RenameMove { from, to } && from@
                        == o.files_view()[i as int].path_view() && to@ == std_join(
                        pp,
                        new_name,
                    )
                    &&& eff matches Effect::Move(a, b) && a@ == o.files_view()[i as int].path_view()
                        && b@ == std_join(pp, new_name)
                },
            }
        }
}

/// A removal of the selected file starts with the probe of its path (the
/// removal is recorded once its kind is known); without a selection it is
/// refused.
pub open spec fn started_remove(o: FileSystemCore, n: FileSystemCore, eff: Effect) -> bool {
    &&& same_data(o, n)
    &&& match o.selected_view() {
            None => shows(n, StateFlag::Error, "Remove: "@ + no_selection_msg())
                && n.idle_view() && eff is Done,
            Some(i) => {
                &&& keeps_state(o, n)
                &&& n.frames_view().len() == 2
                &&& n.frames_view()[0] == Frame::Removed
                &&& n.frames_view()[1] matches Frame::RemoveProbe { path } && path@
                    == o.files_view()[i as int].path_view()
                &&& eff matches Effect::Probe(p) && p@ == o.files_view()[i as int].path_view()
            },
        }
}

/// A move to the parent starts with the probe of the parent, or stops at
/// the root.
pub open spec fn started_parent(o: FileSystemCore, n: FileSystemCore, eff: Effect) -> bool {
    &&& same_data(o, n)
    &&& match std_parent(o.dir_view()) {
            None => shows(n, StateFlag::Error, "Already at root directory"@)
                && n.idle_view() && eff is Done,
            Some(p) => {
                &&& keeps_state(o, n)
                &&& n.frames_view().len() == 2
                &&& n.frames_view()[0] == Frame::ParentWait
                &&& n.frames_view()[1] matches Frame::ChangeDirProbe { target } && target@ == p
                &&& eff matches Effect::Probe(q) && q@ == p
            }
        }
}

/// An entry into the selected directory starts with its probe, or stops
/// on a missing selection or a selection that is not a directory.
pub open spec fn started_enter(o: FileSystemCore, n: FileSystemCore, eff: Effect) -> bool {
    &&& same_data(o, n)
    &&& match o.selected_view() {
            None => shows(n, StateFlag::Error, no_selection_msg())
                && n.idle_view() && eff is Done,
            Some(i) => if !o.files_view()[i as int].dir_view() {
                shows(n, StateFlag::Error, "Selected item is not a directory"@)
                    && n.idle_view() && eff is Done
            } else {
                &&& keeps_state(o, n)
                &&& n.frames_view().len() == 2
                &&& n.frames_view()[0] matches Frame::EnterWait { name } && name@
                    == o.files_view()[i as int].name_view()
                &&& n.frames_view()[1] matches Frame::ChangeDirProbe { target } && target@
                    == o.files_view()[i as int].path_view()
                &&& eff matches Effect::Probe(q) && q@ == o.files_view()[i as int].path_view()
            }
        }
}

/// An undo is about to start.
pub open spec fn started_undo(o: FileSystemCore, n: FileSystemCore, eff: Effect) -> bool {
    &&& same_data(o, n)
    &&& keeps_state(o, n)
    &&& n.frames_view() =~= seq![Frame::UndoStart]
    &&& eff is Continue
}

/// Selecting `index`: a file of the listing becomes the selection, an
/// index past the end is refused with a message; nothing else changes.
pub open spec fn selected_as(o: FileSystemCore, n: FileSystemCore, index: usize, r: Result<(), String>) -> bool {
    &&& n.files_view() == o.files_view()
    &&& n.current_dir == o.current_dir
    &&& n.clipboard == o.clipboard
    &&& n.history == o.history
    &&& n.state == o.state
    &&& n.frames == o.frames
    &&& index < o.files_view().len() ==> r is Ok && n.selected_view() == Some(index)
    &&& index >= o.files_view().len() ==> r is Err && r->Err_0@ == out_of_bounds_msg(
        index,
        o.files_view().len() as usize,
    ) && n.selected_view() == o.selected_view()
}

impl FileSystemCore {
    /// A core at `start_dir` with the given history; the first step lists
    /// the directory (answer it with `resume`).
    pub fn init(start_dir: String, history: History) -> (r: (Self, Effect))
        requires
            history.wf(),
        ensures
            r.0.wf(),
            r.0.dir_view() == start_dir@,
            r.0.files_view() == Seq::<FileInfo>::empty(),
            r.0.selected_view() is None,
            r.0.flag_view() == StateFlag::Operating,
            r.0.info_view() == "Initializing"@,
            r.0.clipboard_view() is None,
            r.0.history_view() == history,
            r.0.frames_view() == seq![Frame::Refresh],
            r.1 matches Effect::List(p) && p@ == start_dir@,
    {
        let mut core = FileSystemCore {
            current_dir: start_dir,
            file_list: FileList::new(),
            state: FileSysState::new(),
            clipboard: Clipboard::new(),
            history,
            frames: Vec::new(),
            ret: Ret::Unit,
        };
        let eff = core.start_refresh();
        assert(core.frames@ =~= seq![Frame::Refresh]);
        (core, eff)
    }

    /// Whether no operation is under way.
    pub fn is_idle(&self) -> (b: bool)
        ensures
            b == self.idle_view(),
    {
        self.frames.len() == 0
    }

    /// Lists the current directory again (answer the effect with `resume`).
    pub fn refresh(&mut self) -> (eff: Effect)
        requires
            old(self).wf(),
            old(self).idle_view(),
        ensures
            final(self).wf(),
            final(self).history_view() == old(self).history_view(),
            refreshing(*old(self), *final(self), Seq::empty(), eff),
    {
        assert(self.frames@ =~= Seq::<Frame>::empty());
        self.start_refresh()
    }

    /// Creates the file (or directory) `name` in the current directory,
    /// unless it exists; recorded for undo.
    pub fn new_file(&mut self, name: &str, is_dir: bool) -> (eff: Effect)
        requires
            old(self).wf(),
            old(self).idle_view(),
        ensures
            final(self).wf(),
            started_new_file(*old(self), *final(self), name@, is_dir, eff),
    {
        let dest = join(self.current_dir.as_str(), name);
        let p = dest.clone();
        self.frames.push(Frame::NewFileProbe { name: name.to_string(), dest, is_dir });
        Effect::Probe(p)
    }

    /// Puts the selected file on the clipboard, to be copied (`true`) or
    /// moved by the next paste.
    pub fn copy_selected(&mut self, is_copy: bool)
        requires
            old(self).wf(),
        ensures
            final(self).wf(),
            copied(*old(self), *final(self), is_copy),
    {
        let picked = match self.file_list.get_selected_file() {
            Err(e) => Err(e),
            Ok(f) => Ok((f.path().clone(), f.name().to_string())),
        };
        match picked {
            Err(e) => self.set_state(StateFlag::Error, message("Copy/Cut File: ", e.as_str())),
            Ok((path, name)) => {
                self.clipboard.set(path, is_copy);
                let m = if is_copy {
                    message("Copied: ", name.as_str())
                } else {
                    message("Cut: ", name.as_str())
                };
                self.set_state(StateFlag::Ready, m);
            },
        }
    }

    /// Pastes the clipboard's path into the current directory, resolving
    /// conflicts with the user; the directory is listed again at the end.
    pub fn paste(&mut self) -> (eff: Effect)
        requires
            old(self).wf(),
            old(self).idle_view(),
        ensures
            final(self).wf(),
            started_paste(*old(self), *final(self), eff),
    {
        self.set_state(StateFlag::Operating, String::from_str("Pasting"));
        let content = match self.clipboard.get() {
            None => None,
            Some(c) => Some((c.0.clone(), c.1)),
        };
        match content {
            None => {
                self.set_state(
                    StateFlag::Error,
                    String::from_str("Get From Clipboard: Clipboard is empty"),
                );
                Effect::Done
            },
            Some((source, is_copy)) => {
                let p = source.clone();
                let dest_dir = self.current_dir.clone();
                self.frames.push(Frame::PasteProbe { source, is_copy, dest_dir });
                Effect::Probe(p)
            },
        }
    }

    /// Renames the selected file to `new_name` in its directory; recorded
    /// for undo.
    pub fn rename_selected(&mut self, new_name: &str) -> (eff: Effect)
        requires
            old(self).wf(),
            old(self).idle_view(),
        ensures
            final(self).wf(),
            started_rename(*old(self), *final(self), new_name@, eff),
    {
        let old_path = match self.file_list.get_selected_file() {
            Err(e) => Err(e),
            Ok(f) => Ok(f.path().clone()),
        };
        match old_path {
            Err(e) => {
                self.set_state(StateFlag::Error, message("Rename: ", e.as_str()));
                Effect::Done
            },
            Ok(from) => match parent(from.as_str()) {
                None => {
                    self.set_state(StateFlag::Error, String::from_str("Rename: path has no parent"));
                    Effect::Done
                },
                Some(pp) => {
                    let to = join(pp.as_str(), new_name);
                    let a = from.clone();
                    let b = to.clone();
                    self.frames.push(Frame::RenameMove { from, to });
                    Effect::Move(a, b)
                },
            },
        }
    }

    /// Removes the selected file, a directory with all its content; the
    /// removal is recorded, and undo reports it cannot be reverted. The
    /// directory is listed again at the end.
    pub fn remove_selected(&mut self) -> (eff: Effect)
        requires
            old(self).wf(),
            old(self).idle_view(),
        ensures
            final(self).wf(),
            started_remove(*old(self), *final(self), eff),
    {
        let picked = match self.file_list.get_selected_file() {
            Err(e) => Err(e),
            Ok(f) => Ok(f.path().clone()),
        };
        match picked {
            Err(e) => {
                self.set_state(StateFlag::Error, message("Remove: ", e.as_str()));
                Effect::Done
            },
            Ok(path) => {
                let p = path.clone();
                self.frames.push(Frame::Removed);
                self.frames.push(Frame::RemoveProbe { path });
                Effect::Probe(p)
            },
        }
    }

    /// Moves to the parent of the current directory; recorded for undo.
    pub fn parent_dir(&mut self) -> (eff: Effect)
        requires
            old(self).wf(),
            old(self).idle_view(),
        ensures
            final(self).wf(),
            started_parent(*old(self), *final(self), eff),
    {
        match parent(self.current_dir.as_str()) {
            None => {
                self.set_state(StateFlag::Error, String::from_str("Already at root directory"));
                Effect::Done
            },
            Some(p) => {
                let q = p.clone();
                self.frames.push(Frame::ParentWait);
                self.frames.push(Frame::ChangeDirProbe { target: p });
                Effect::Probe(q)
            },
        }
    }

    /// Enters the selected directory; recorded for undo.
    pub fn enter_selected(&mut self) -> (eff: Effect)
        requires
            old(self).wf(),
            old(self).idle_view(),
        ensures
            final(self).wf(),
            started_enter(*old(self), *final(self), eff),
    {
        let picked = match self.file_list.get_selected_file() {
            Err(e) => Err(e),
            Ok(f) => Ok((f.path().clone(), f.name().to_string(), f.is_dir())),
        };
        match picked {
            Err(e) => {
                self.set_state(StateFlag::Error, e);
                Effect::Done
            },
            Ok((path, name, is_dir)) => {
                if !is_dir {
                    self.set_state(
                        StateFlag::Error,
                        String::from_str("Selected item is not a directory"),
                    );
                    return Effect::Done;
                }
                let q = path.clone();
                self.frames.push(Frame::EnterWait { name });
                self.frames.push(Frame::ChangeDirProbe { target: path });
                Effect::Probe(q)
            },
        }
    }

    /// Undoes the newest record of the history (answer `Effect::Continue`
    /// with `Event::Go`).
    pub fn undo(&mut self) -> (eff: Effect)
        requires
            old(self).wf(),
            old(self).idle_view(),
        ensures
            final(self).wf(),
            started_undo(*old(self), *final(self), eff),
    {
        self.frames.push(Frame::UndoStart);
        Effect::Continue
    }

    /// Reports that the history could not be written.
    pub fn history_failed(&mut self, e: &str)
        requires
            old(self).wf(),
        ensures
            final(self).wf(),
            same_data(*old(self), *final(self)),
            final(self).frames_view() == old(self).frames_view(),
            final(self).idle_view() == old(self).idle_view(),
            final(self).flag_view() == StateFlag::Error,
            final(self).info_view() == "History record failed: "@ + e@,
    {
        self.set_state(StateFlag::Error, message("History record failed: ", e));
    }

    pub fn files(&self) -> (s: &[FileInfo])
        ensures
            s@ == self.files_view(),
    {
        self.file_list.files()
    }

    pub fn get_file(&self, index: usize) -> (r: Option<&FileInfo>)
        ensures
            index < self.files_view().len() ==> r == Some(&self.files_view()[index as int]),
            index >= self.files_view().len() ==> r is None,
    {
        self.file_list.get(index)
    }

    pub fn current_dir(&self) -> (s: &str)
        ensures
            s@ == self.dir_view(),
    {
        self.current_dir.as_str()
    }

    pub fn state_flag(&self) -> (f: StateFlag)
        ensures
            f == self.flag_view(),
    {
        self.state.flag()
    }

    pub fn state_info(&self) -> (s: &str)
        ensures
            s@ == self.info_view(),
    {
        self.state.info()
    }

    pub fn history(&self) -> (h: &History)
        ensures
            *h == self.history_view(),
    {
        &self.history
    }

    /// Selects a file; an index past the end is refused with a message.
    pub fn select(&mut self, index: usize) -> (r: Result<(), String>)
        requires
            old(self).wf(),
        ensures
            final(self).wf(),
            final(self).idle_view() == old(self).idle_view(),
            selected_as(*old(self), *final(self), index, r),
    {
        self.file_list.select(index)
    }
}

/// The record an operation leaves on a kept history that is not full is
/// the one the next undo takes back, and taking it leaves the history as
/// it was before the operation.
pub proof fn lemma_undo_takes_last_record(o: FileSystemCore, n: FileSystemCore, op: OperationFS, src: Seq<char>, dst: Seq<char>)
    requires
        pushed(o, n, op, src, dst),
        o.history_view().available_view(),
        o.history_view().log_view().len() < crate::fs_info::history::MAX_HISTORY,
    ensures
        exists|u: OperationUnitFS|
            record(op, src, dst, u) && crate::fs_info::history::pop_log(
                n.history_view().log_view(),
            ) == (Some(u), o.history_view().log_view()),
{
    let u = choose|u: OperationUnitFS|
        record(op, src, dst, u) && n.history.log_view() == crate::fs_info::history::push_log(
            o.history.log_view(),
            o.history.available_view(),
            u,
        );
    crate::fs_info::history::lemma_pop_after_push(o.history.log_view(), u);
}

/// An undo reverts the newest operation recorded: after a rename, a move, a
/// copy or a creation of `dst` was recorded on a kept history, the next
/// undo first probes `dst`; when it exists, a renamed path is moved back to
/// `src`, a moved one too once the parent of `src` is created, and a copy
/// or a new path is removed.
pub proof fn lemma_undo_reverts_last(
    o0: FileSystemCore,
    o: FileSystemCore,
    n1: FileSystemCore,
    n2: FileSystemCore,
    n3: FileSystemCore,
    op: OperationFS,
    src: Seq<char>,
    dst: Seq<char>,
    e1: Effect,
    e2: Effect,
    e3: Effect,
    is_dir: bool,
)
    requires
        pushed(o0, o, op, src, dst),
        o0.history_view().available_view(),
        op is Rename || op is Move || op is Copy || op is New,
        started_undo(o, n1, e1),
        step_post(n1, n2, Event::Go, e2),
        step_post(n2, n3, Event::Probe(true, is_dir), e3),
    ensures
        e1 is Continue,
        e2 matches Effect::Probe(p) && p@ == dst,
        op is Rename ==> (e3 matches Effect::Move(a, b) && a@ == dst && b@ == src),
        op is Move ==> match std_parent(src) {
            Some(pp) => e3 matches Effect::CreateAll(q) && q@ == pp,
            None => e3 matches Effect::Move(a, b) && a@ == dst && b@ == src,
        },
        (op is Copy || op is New) ==> (e3 matches Effect::Remove(p, d) && p@ == dst && d == is_dir),
{
    let u = choose|u: OperationUnitFS|
        record(op, src, dst, u) && o.history.log_view() == crate::fs_info::history::push_log(
            o0.history.log_view(),
            o0.history.available_view(),
            u,
        );
    let log = o0.history.log_view();
    assert(crate::fs_info::history::pop_log(o.history.log_view()).0 == Some(u)) by {
        if log.len() >= crate::fs_info::history::MAX_HISTORY {
            assert(log.drop_first().push(u).last() == u);
        } else {
            assert(log.push(u).last() == u);
        }
    }
    assert(n1.frames@.last() == Frame::UndoStart);
    assert(n1.frames@.drop_last() =~= Seq::<Frame>::empty());
    assert(n2.frames@ =~= seq![Frame::UndoProbe { unit: u }]);
    assert(n2.frames@.last() == Frame::UndoProbe { unit: u });
    assert(n2.frames@.drop_last() =~= Seq::<Frame>::empty());
}

/// Undoing a change of directory returns to the directory left: after a
/// move from `src` to `dst` was recorded on a kept history, the next undo
/// makes `src` the current directory and lists it.
pub proof fn lemma_undo_returns_to_directory(
    o0: FileSystemCore,
    o: FileSystemCore,
    n1: FileSystemCore,
    n2: FileSystemCore,
    src: Seq<char>,
    dst: Seq<char>,
    e1: Effect,
    e2: Effect,
)
    requires
        pushed(o0, o, OperationFS::ChangeDir, src, dst),
        o0.history_view().available_view(),
        started_undo(o, n1, e1),
        step_post(n1, n2, Event::Go, e2),
    ensures
        n2.dir_view() == src,
        e2 matches Effect::List(p) && p@ == src,
{
    let u = choose|u: OperationUnitFS|
        record(OperationFS::ChangeDir, src, dst, u) && o.history.log_view()
            == crate::fs_info::history::push_log(o0.history.log_view(), o0.history.available_view(), u);
    let log = o0.history.log_view();
    assert(crate::fs_info::history::pop_log(o.history.log_view()).0 == Some(u)) by {
        if log.len() >= crate::fs_info::history::MAX_HISTORY {
            assert(log.drop_first().push(u).last() == u);
        } else {
            assert(log.push(u).last() == u);
        }
    }
    assert(n1.frames@.last() == Frame::UndoStart);
    assert(n1.frames@.drop_last() =~= Seq::<Frame>::empty());
}

/// Undo takes an operation back whole: after a rename, a copy or a
/// creation of `dst` was recorded on a kept history that was not full, an
/// undo whose file system steps succeed probes `dst`, moves it back to
/// `src` (a rename) or removes it (a copy or a creation), lists the
/// directory again and ends idle, showing "Undone", with the history as it
/// was before the operation.
pub proof fn lemma_undo_round_trip(
    o0: FileSystemCore,
    o: FileSystemCore,
    n1: FileSystemCore,
    n2: FileSystemCore,
    n3: FileSystemCore,
    n4: FileSystemCore,
    n5: FileSystemCore,
    n6: FileSystemCore,
    n7: FileSystemCore,
    op: OperationFS,
    src: Seq<char>,
    dst: Seq<char>,
    is_dir: bool,
    items: Vec<FileInfo>,
    e1: Effect,
    e2: Effect,
    e3: Effect,
    e4: Effect,
    e5: Effect,
    e6: Effect,
    e7: Effect,
)
    requires
        pushed(o0, o, op, src, dst),
        o0.history_view().available_view(),
        o0.history_view().log_view().len() < crate::fs_info::history::MAX_HISTORY,
        op is Rename || op is Copy || op is New,
        started_undo(o, n1, e1),
        step_post(n1, n2, Event::Go, e2),
        step_post(n2, n3, Event::Probe(true, is_dir), e3),
        step_post(n3, n4, Event::Outcome(Ok(())), e4),
        step_post(n4, n5, Event::Listing(items, None), e5),
        step_post(n5, n6, Event::Go, e6),
        step_post(n6, n7, Event::Go, e7),
    ensures
        e2 matches Effect::Probe(p) && p@ == dst,
        op is Rename ==> (e3 matches Effect::Move(a, b) && a@ == dst && b@ == src),
        !(op is Rename) ==> (e3 matches Effect::Remove(p, d) && p@ == dst && d == is_dir),
        e4 matches Effect::List(p) && p@ == o.dir_view(),
        e7 is Done,
        n7.idle_view(),
        n7.flag_view() == StateFlag::Ready,
        n7.info_view() == "Undone"@,
        n7.history_view().log_view() == o0.history_view().log_view(),
        n7.dir_view() == o.dir_view(),
        listing_sorted(n7.files_view()),
        n7.files_view().to_multiset() == items@.to_multiset(),
{
    let u = choose|u: OperationUnitFS|
        record(op, src, dst, u) && o.history.log_view() == crate::fs_info::history::push_log(
            o0.history.log_view(),
            o0.history.available_view(),
            u,
        );
    crate::fs_info::history::lemma_pop_after_push(o0.history.log_view(), u);
    assert(n1.frames@.last() == Frame::UndoStart);
    assert(n1.frames@.drop_last() =~= Seq::<Frame>::empty());
    assert(n2.frames@ =~= seq![Frame::UndoProbe { unit: u }]);
    assert(n2.frames@.last() == Frame::UndoProbe { unit: u });
    assert(n2.frames@.drop_last() =~= Seq::<Frame>::empty());
    if op is Rename {
        assert(n3.frames@ =~= seq![Frame::UndoMoveBack { op: OperationFS::Rename }]);
        assert(n3.frames@.last() == Frame::UndoMoveBack { op: OperationFS::Rename });
    } else {
        assert(n3.frames@ =~= seq![Frame::UndoRemove { op }]);
        assert(n3.frames@.last() == Frame::UndoRemove { op });
    }
    assert(n3.frames@.drop_last() =~= Seq::<Frame>::empty());
    assert(n4.frames@ =~= seq![Frame::UndoFinish, Frame::Refresh]);
    assert(n4.frames@.last() == Frame::Refresh);
    assert(n4.frames@.drop_last() =~= seq![Frame::UndoFinish]);
    assert(n5.frames@.last() == Frame::UndoFinish);
    assert(n5.frames@.drop_last() =~= Seq::<Frame>::empty());
    assert(n6.frames@.len() == 0);
}

/// Undo takes a move back whole: after a move of `src` (whose parent is
/// `pp`) to `dst` was recorded on a kept history that was not full, an
/// undo whose file system steps succeed probes `dst`, creates `pp`, moves
/// `dst` back to `src`, lists the directory again and ends idle, showing
/// "Undone", with the history as it was before the move.
pub proof fn lemma_undo_move_round_trip(
    o0: FileSystemCore,
    o: FileSystemCore,
    ns: Seq<FileSystemCore>,
    src: Seq<char>,
    dst: Seq<char>,
    pp: Seq<char>,
    is_dir: bool,
    items: Vec<FileInfo>,
    es: Seq<Effect>,
)
    requires
        pushed(o0, o, OperationFS::Move, src, dst),
        o0.history_view().available_view(),
        o0.history_view().log_view().len() < crate::fs_info::history::MAX_HISTORY,
        std_parent(src) == Some(pp),
        ns.len() == 8,
        es.len() == 8,
        started_undo(o, ns[0], es[0]),
        step_post(ns[0], ns[1], Event::Go, es[1]),
        step_post(ns[1], ns[2], Event::Probe(true, is_dir), es[2]),
        step_post(ns[2], ns[3], Event::Outcome(Ok(())), es[3]),
        step_post(ns[3], ns[4], Event::Outcome(Ok(())), es[4]),
        step_post(ns[4], ns[5], Event::Listing(items, None), es[5]),
        step_post(ns[5], ns[6], Event::Go, es[6]),
        step_post(ns[6], ns[7], Event::Go, es[7]),
    ensures
        es[1] matches Effect::Probe(p) && p@ == dst,
        es[2] matches Effect::CreateAll(p) && p@ == pp,
        es[3] matches Effect::Move(a, b) && a@ == dst && b@ == src,
        es[4] matches Effect::List(p) && p@ == o.dir_view(),
        es[7] is Done,
        ns[7].idle_view(),
        ns[7].flag_view() == StateFlag::Ready,
        ns[7].info_view() == "Undone"@,
        ns[7].history_view().log_view() == o0.history_view().log_view(),
        ns[7].dir_view() == o.dir_view(),
        listing_sorted(ns[7].files_view()),
        ns[7].files_view().to_multiset() == items@.to_multiset(),
{
    let u = choose|u: OperationUnitFS|
        record(OperationFS::Move, src, dst, u) && o.history.log_view()
            == crate::fs_info::history::push_log(o0.history.log_view(), o0.history.available_view(), u);
    crate::fs_info::history::lemma_pop_after_push(o0.history.log_view(), u);
    let empty = Seq::<Frame>::empty();
    assert(ns[0].frames@.last() == Frame::UndoStart);
    assert(ns[0].frames@.drop_last() =~= empty);
    assert(ns[1].frames@ =~= seq![Frame::UndoProbe { unit: u }]);
    assert(ns[1].frames@.last() == Frame::UndoProbe { unit: u });
    assert(ns[1].frames@.drop_last() =~= empty);
    assert(ns[2].frames@ =~= seq![Frame::UndoParent { unit: u }]);
    assert(ns[2].frames@.last() == Frame::UndoParent { unit: u });
    assert(ns[2].frames@.drop_last() =~= empty);
    assert(ns[3].frames@ =~= seq![Frame::UndoMoveBack { op: OperationFS::Move }]);
    assert(ns[3].frames@.last() == Frame::UndoMoveBack { op: OperationFS::Move });
    assert(ns[3].frames@.drop_last() =~= empty);
    assert(ns[4].frames@ =~= seq![Frame::UndoFinish, Frame::Refresh]);
    assert(ns[4].frames@.last() == Frame::Refresh);
    assert(ns[4].frames@.drop_last() =~= seq![Frame::UndoFinish]);
    assert(ns[5].frames@.last() == Frame::UndoFinish);
    assert(ns[5].frames@.drop_last() =~= empty);
    assert(ns[6].frames@.len() == 0);
}

/// A rename is taken back by the next undo: on a kept history that is not
/// full, renaming the selected file (`from`) to `name` in its directory
/// (`to`), with the move and the listing done, then undoing with the steps
/// done, moves `to` back to `from` and ends idle, showing "Undone", in the
/// same directory, with the history as before the rename.
pub proof fn lemma_rename_then_undo(
    o: FileSystemCore,
    i: usize,
    pp: Seq<char>,
    name: Seq<char>,
    rs: Seq<FileSystemCore>,
    res: Seq<Effect>,
    items1: Vec<FileInfo>,
    us: Seq<FileSystemCore>,
    ues: Seq<Effect>,
    items2: Vec<FileInfo>,
    is_dir: bool,
)
    requires
        o.history_view().available_view(),
        o.history_view().log_view().len() < crate::fs_info::history::MAX_HISTORY,
        o.selected_view() == Some(i),
        std_parent(o.files_view()[i as int].path_view()) == Some(pp),
        rs.len() == 4,
        res.len() == 4,
        started_rename(o, rs[0], name, res[0]),
        step_post(rs[0], rs[1], Event::Outcome(Ok(())), res[1]),
        step_post(rs[1], rs[2], Event::Listing(items1, None), res[2]),
        step_post(rs[2], rs[3], Event::Go, res[3]),
        us.len() == 7,
        ues.len() == 7,
        started_undo(rs[3], us[0], ues[0]),
        step_post(us[0], us[1], Event::Go, ues[1]),
        step_post(us[1], us[2], Event::Probe(true, is_dir), ues[2]),
        step_post(us[2], us[3], Event::Outcome(Ok(())), ues[3]),
        step_post(us[3], us[4], Event::Listing(items2, None), ues[4]),
        step_post(us[4], us[5], Event::Go, ues[5]),
        step_post(us[5], us[6], Event::Go, ues[6]),
    ensures
        res[0] matches Effect::Move(a, b) && a@ == o.files_view()[i as int].path_view() && b@
            == std_join(pp, name),
        res[3] is Done,
        rs[3].idle_view(),
        ues[1] matches Effect::Probe(p) && p@ == std_join(pp, name),
        ues[2] matches Effect::Move(a, b) && a@ == std_join(pp, name) && b@ == o.files_view()[i as int].path_view(),
        ues[6] is Done,
        us[6].idle_view(),
        us[6].flag_view() == StateFlag::Ready,
        us[6].info_view() == "Undone"@,
        us[6].history_view().log_view() == o.history_view().log_view(),
        us[6].dir_view() == o.dir_view(),
{
    let from = o.files_view()[i as int].path_view();
    let to = std_join(pp, name);
    assert(rs[0].frames@.last() matches Frame::RenameMove { from: f, to: t } && f@ == from && t@ == to);
    assert(rs[0].frames@.drop_last() =~= Seq::<Frame>::empty());
    assert(rs[1].frames@ =~= seq![Frame::Refresh]);
    assert(rs[1].frames@.last() == Frame::Refresh);
    assert(rs[1].frames@.drop_last() =~= Seq::<Frame>::empty());
    assert(rs[2].frames@.len() == 0);
    assert(rs[3].history == rs[1].history);
    assert(pushed(rs[0], rs[3], OperationFS::Rename, from, to));
    lemma_undo_round_trip(
        rs[0], rs[3], us[0], us[1], us[2], us[3], us[4], us[5], us[6], OperationFS::Rename, from, to,
        is_dir, items2, ues[0], ues[1], ues[2], ues[3], ues[4], ues[5], ues[6],
    );
}

/// A new file or directory is taken back by the next undo: on a kept
/// history that is not full, creating `name` (a free path in the current
/// directory), with the creation and the listing done, then undoing with
/// the steps done, removes it and ends idle, showing "Undone", in the same
/// directory, with the history as before the creation.
pub proof fn lemma_new_file_then_undo(
    o: FileSystemCore,
    name: Seq<char>,
    is_dir: bool,
    ns: Seq<FileSystemCore>,
    nes: Seq<Effect>,
    items1: Vec<FileInfo>,
    us: Seq<FileSystemCore>,
    ues: Seq<Effect>,
    items2: Vec<FileInfo>,
)
    requires
        o.history_view().available_view(),
        o.history_view().log_view().len() < crate::fs_info::history::MAX_HISTORY,
        ns.len() == 5,
        nes.len() == 5,
        started_new_file(o, ns[0], name, is_dir, nes[0]),
        step_post(ns[0], ns[1], Event::Probe(false, false), nes[1]),
        step_post(ns[1], ns[2], Event::Outcome(Ok(())), nes[2]),
        step_post(ns[2], ns[3], Event::Listing(items1, None), nes[3]),
        step_post(ns[3], ns[4], Event::Go, nes[4]),
        us.len() == 7,
        ues.len() == 7,
        started_undo(ns[4], us[0], ues[0]),
        step_post(us[0], us[1], Event::Go, ues[1]),
        step_post(us[1], us[2], Event::Probe(true, is_dir), ues[2]),
        step_post(us[2], us[3], Event::Outcome(Ok(())), ues[3]),
        step_post(us[3], us[4], Event::Listing(items2, None), ues[4]),
        step_post(us[4], us[5], Event::Go, ues[5]),
        step_post(us[5], us[6], Event::Go, ues[6]),
    ensures
        nes[1] matches Effect::Create(p, d) && p@ == std_join(o.dir_view(), name) && d == is_dir,
        nes[4] is Done,
        ues[2] matches Effect::Remove(p, d) && p@ == std_join(o.dir_view(), name) && d == is_dir,
        ues[6] is Done,
        us[6].idle_view(),
        us[6].flag_view() == StateFlag::Ready,
        us[6].info_view() == "Undone"@,
        us[6].history_view().log_view() == o.history_view().log_view(),
        us[6].dir_view() == o.dir_view(),
{
    let dest = std_join(o.dir_view(), name);
    assert(ns[0].frames@.last() matches Frame::NewFileProbe { name: nm, dest: d, is_dir: x } && d@
        == dest && x == is_dir);
    assert(ns[0].frames@.drop_last() =~= Seq::<Frame>::empty());
    assert(ns[1].frames@.last() matches Frame::NewFileCreate { dest: d, is_dir: x } && d@ == dest
        && x == is_dir);
    assert(ns[1].frames@.drop_last() =~= Seq::<Frame>::empty());
    assert(ns[2].frames@ =~= seq![Frame::Refresh]);
    assert(ns[2].frames@.last() == Frame::Refresh);
    assert(ns[2].frames@.drop_last() =~= Seq::<Frame>::empty());
    assert(ns[3].frames@.len() == 0);
    assert(ns[4].history == ns[2].history);
    assert(pushed(ns[1], ns[4], OperationFS::New, Seq::empty(), dest));
    lemma_undo_round_trip(
        ns[1], ns[4], us[0], us[1], us[2], us[3], us[4], us[5], us[6], OperationFS::New, Seq::empty(),
        dest, is_dir, items2, ues[0], ues[1], ues[2], ues[3], ues[4], ues[5], ues[6],
    );
}

/// A move to the parent is taken back by the next undo: on a kept history
/// that is not full, going from the current directory to its parent `p`
/// (which exists), with the listings done, then undoing with the listings
/// done, returns to the directory left and ends idle, showing "Undone",
/// with the history as before.
pub proof fn lemma_parent_then_undo(
    o: FileSystemCore,
    p: Seq<char>,
    ps: Seq<FileSystemCore>,
    pes: Seq<Effect>,
    items1: Vec<FileInfo>,
    us: Seq<FileSystemCore>,
    ues: Seq<Effect>,
    items2: Vec<FileInfo>,
    items3: Vec<FileInfo>,
)
    requires
        o.history_view().available_view(),
        o.history_view().log_view().len() < crate::fs_info::history::MAX_HISTORY,
        std_parent(o.dir_view()) == Some(p),
        ps.len() == 6,
        pes.len() == 6,
        started_parent(o, ps[0], pes[0]),
        step_post(ps[0], ps[1], Event::Probe(true, true), pes[1]),
        step_post(ps[1], ps[2], Event::Listing(items1, None), pes[2]),
        step_post(ps[2], ps[3], Event::Go, pes[3]),
        step_post(ps[3], ps[4], Event::Go, pes[4]),
        step_post(ps[4], ps[5], Event::Go, pes[5]),
        us.len() == 7,
        ues.len() == 7,
        started_undo(ps[5], us[0], ues[0]),
        step_post(us[0], us[1], Event::Go, ues[1]),
        step_post(us[1], us[2], Event::Listing(items2, None), ues[2]),
        step_post(us[2], us[3], Event::Go, ues[3]),
        step_post(us[3], us[4], Event::Listing(items3, None), ues[4]),
        step_post(us[4], us[5], Event::Go, ues[5]),
        step_post(us[5], us[6], Event::Go, ues[6]),
    ensures
        pes[1] matches Effect::List(q) && q@ == p,
        pes[5] is Done,
        ps[5].idle_view(),
        ps[5].dir_view() == p,
        ps[5].info_view() == "Moved to parent directory"@,
        ues[1] matches Effect::List(q) && q@ == o.dir_view(),
        ues[6] is Done,
        us[6].idle_view(),
        us[6].dir_view() == o.dir_view(),
        us[6].flag_view() == StateFlag::Ready,
        us[6].info_view() == "Undone"@,
        us[6].history_view().log_view() == o.history_view().log_view(),
{
    let e = Seq::<Frame>::empty();
    assert(ps[0].frames@.last() matches Frame::ChangeDirProbe { target } && target@ == p);
    assert(ps[0].frames@.drop_last() =~= seq![Frame::ParentWait]);
    assert(ps[1].frames@ =~= seq![Frame::ParentWait, Frame::ChangeDirWait, Frame::Refresh]);
    assert(ps[1].frames@.last() == Frame::Refresh);
    assert(ps[1].frames@.drop_last() =~= seq![Frame::ParentWait, Frame::ChangeDirWait]);
    assert(ps[2].frames@.last() == Frame::ChangeDirWait);
    assert(ps[2].frames@.drop_last() =~= seq![Frame::ParentWait]);
    assert(ps[3].frames@.last() == Frame::ParentWait);
    assert(ps[3].frames@.drop_last() =~= e);
    assert(ps[4].frames@.len() == 0);
    let u = choose|u: OperationUnitFS|
        record(OperationFS::ChangeDir, o.current_dir@, p, u) && ps[1].history.log_view()
            == crate::fs_info::history::push_log(o.history.log_view(), o.history.available_view(), u);
    assert(ps[5].history == ps[1].history);
    crate::fs_info::history::lemma_pop_after_push(o.history.log_view(), u);
    assert(us[0].frames@.last() == Frame::UndoStart);
    assert(us[0].frames@.drop_last() =~= e);
    assert(us[1].frames@ =~= seq![Frame::UndoChangeDir, Frame::Refresh]);
    assert(us[1].frames@.last() == Frame::Refresh);
    assert(us[1].frames@.drop_last() =~= seq![Frame::UndoChangeDir]);
    assert(us[2].frames@.last() == Frame::UndoChangeDir);
    assert(us[2].frames@.drop_last() =~= e);
    assert(us[3].frames@ =~= seq![Frame::UndoFinish, Frame::Refresh]);
    assert(us[3].frames@.last() == Frame::Refresh);
    assert(us[3].frames@.drop_last() =~= seq![Frame::UndoFinish]);
    assert(us[4].frames@.last() == Frame::UndoFinish);
    assert(us[4].frames@.drop_last() =~= e);
    assert(us[5].frames@.len() == 0);
}


/// Law: once an answer `h` (other than a rename) was given with
/// apply-to-all for a kind of conflict, a later conflict of that kind in
/// the same directory is not asked about: the entry goes on with `h`, and
/// the apply-to-all state it carries still stores `h`.
pub proof fn lemma_apply_to_all_answers(o: FileSystemCore, n: FileSystemCore, h: DuplicatedFileHandleOps, found_dir: bool, eff: Effect)
    requires
        o.frames@.len() > 0,
        o.frames@.last() matches Frame::EntryProbe { is_dir, apply, .. }
            && crate::fs_info::duplicate_handler::stored_for(apply, is_dir) == Some(h),
        !(h is Rename),
        step_post(o, n, Event::Probe(true, found_dir), eff),
    ensures
        !(eff is Ask),
        o.frames@.last() matches Frame::EntryProbe { is_dir, .. } && if is_dir {
            n.frames@.last() matches Frame::EntryDirCreated { apply: a, .. }
                && crate::fs_info::duplicate_handler::stored_for(a, true) == Some(h)
        } else if h is Overwrite {
            n.frames@[o.frames@.len() - 1] matches Frame::EntryRemoved { apply: a, .. }
                && crate::fs_info::duplicate_handler::stored_for(a, false) == Some(h)
        } else {
            ||| n.frames@.last() matches Frame::EntryCopy { apply: a, .. }
                && crate::fs_info::duplicate_handler::stored_for(a, false) == Some(h)
            ||| n.frames@.last() matches Frame::EntryMove { apply: a, .. }
                && crate::fs_info::duplicate_handler::stored_for(a, false) == Some(h)
        },
{
}

/// Law: a file entry answered by the stored apply-to-all answer `h` (a
/// skip-free transfer: neither a rename nor an overwrite) hands the walk,
/// once copied or moved, an apply-to-all state that still stores `h`, so
/// the next file conflict of the directory is answered by it too.
pub proof fn lemma_apply_to_all_carried_on(
    o: FileSystemCore,
    n: FileSystemCore,
    n2: FileSystemCore,
    h: DuplicatedFileHandleOps,
    found_dir: bool,
    eff: Effect,
    eff2: Effect,
)
    requires
        o.frames@.len() > 0,
        o.frames@.last() matches Frame::EntryProbe { is_dir, apply, .. } && !is_dir
            && crate::fs_info::duplicate_handler::stored_for(apply, false) == Some(h),
        !(h is Rename),
        !(h is Overwrite),
        step_post(o, n, Event::Probe(true, found_dir), eff),
        step_post(n, n2, Event::Outcome(Ok(())), eff2),
    ensures
        !(eff is Ask),
        n2.ret matches Ret::Entry(Ok(()), a)
            && crate::fs_info::duplicate_handler::stored_for(a, false) == Some(h),
        n2.frames@ =~= o.frames@.drop_last(),
{
    lemma_apply_to_all_answers(o, n, h, found_dir, eff);
    assert(n.frames@.drop_last() =~= o.frames@.drop_last());
}

} // verus!
