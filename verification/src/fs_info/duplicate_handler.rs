//! What to do when a pasted file or directory meets an existing one.
use vstd::prelude::*;

use crate::path::{join, parent, std_join, std_parent};

verus! {

/// How the user resolves a name conflict.
pub enum DuplicatedFileHandleOps {
    /// For a file.
    Overwrite,
    /// For a directory or a file.
    Rename(String),
    /// For a directory or a file.
    Skip,
    /// For a directory.
    WriteIn,
    Cancel,
    /// No conflict.
    NoConflict,
}

impl Clone for DuplicatedFileHandleOps {
    fn clone(&self) -> (r: Self)
        ensures
            r == *self,
    {
        match self {
            DuplicatedFileHandleOps::Overwrite => DuplicatedFileHandleOps::Overwrite,
            DuplicatedFileHandleOps::Rename(s) => DuplicatedFileHandleOps::Rename(s.clone()),
            DuplicatedFileHandleOps::Skip => DuplicatedFileHandleOps::Skip,
            DuplicatedFileHandleOps::WriteIn => DuplicatedFileHandleOps::WriteIn,
            DuplicatedFileHandleOps::Cancel => DuplicatedFileHandleOps::Cancel,
            DuplicatedFileHandleOps::NoConflict => DuplicatedFileHandleOps::NoConflict,
        }
    }
}

/// Why a directory paste stopped.
#[derive(Clone, Copy, PartialEq, Eq, Structural, Debug)]
pub enum PasteAbort {
    Error,
    Cancel,
}

/// The "apply to all" state across the entries of one directory.
///
/// - Rename never enters apply-to-all.
/// - A file handler only answers later file conflicts.
/// - A directory handler only answers later directory conflicts.
/// - When the kind of conflict switches, the user is asked again and the
///   answer becomes the new state.
pub enum ApplyToAll {
    No,
    /// Applies to file conflicts only.
    File(DuplicatedFileHandleOps),
    /// Applies to directory conflicts only.
    Dir(DuplicatedFileHandleOps),
}

impl Clone for ApplyToAll {
    fn clone(&self) -> (r: Self)
        ensures
            r == *self,
    {
        match self {
            ApplyToAll::No => ApplyToAll::No,
            ApplyToAll::File(h) => ApplyToAll::File(h.clone()),
            ApplyToAll::Dir(h) => ApplyToAll::Dir(h.clone()),
        }
    }
}

/// The stored handler that answers a conflict of the given kind, if any.
pub open spec fn stored_for(a: ApplyToAll, is_dir: bool) -> Option<DuplicatedFileHandleOps> {
    match a {
        ApplyToAll::File(h) => if !is_dir {
            Some(h)
        } else {
            None
        },
        ApplyToAll::Dir(h) => if is_dir {
            Some(h)
        } else {
            None
        },
        ApplyToAll::No => None,
    }
}

/// The state after the user answered `(handler, apply)` for a conflict of
/// the given kind.
pub open spec fn updated(handler: DuplicatedFileHandleOps, apply: bool, is_dir: bool) -> ApplyToAll {
    if !apply || handler is Rename {
        ApplyToAll::No
    } else if is_dir {
        ApplyToAll::Dir(handler)
    } else {
        ApplyToAll::File(handler)
    }
}

impl ApplyToAll {
    /// The stored handler if it matches the kind of conflict.
    pub fn get(&self, is_dir: bool) -> (r: Option<&DuplicatedFileHandleOps>)
        ensures
            match stored_for(*self, is_dir) {
                Some(h) => r == Some(&h),
                None => r is None,
            },
    {
        match self {
            ApplyToAll::File(h) => if !is_dir {
                Some(h)
            } else {
                None
            },
            ApplyToAll::Dir(h) => if is_dir {
                Some(h)
            } else {
                None
            },
            ApplyToAll::No => None,
        }
    }

    /// Records the user's answer; a rename, or an answer not applied to
    /// all, clears the state.
    pub fn update(&mut self, handler: &DuplicatedFileHandleOps, apply: bool, is_dir: bool)
        ensures
            *final(self) == updated(*handler, apply, is_dir),
    {
        if !apply || matches!(handler, DuplicatedFileHandleOps::Rename(_)) {
            *self = ApplyToAll::No;
        } else if is_dir {
            *self = ApplyToAll::Dir(handler.clone());
        } else {
            *self = ApplyToAll::File(handler.clone());
        }
    }
}

/// How a file conflict was resolved.
pub enum FileConflictResult {
    /// Continue with this destination; the handler is kept for history.
    Proceed { dest: String, handler: DuplicatedFileHandleOps, apply: bool },
    Skip { apply: bool },
    Cancel,
}

/// How a directory conflict was resolved.
pub enum DirConflictResult {
    /// Continue with this destination.
    Proceed { dest: String, handler: DuplicatedFileHandleOps, apply: bool },
    Skip { apply: bool },
    Cancel,
}

/// One step of resolving a conflict: resolved, the user is to be asked
/// about a path, or a new candidate path is to be checked.
pub enum ConflictStep<R> {
    Done(R),
    Ask(String),
    Check(String),
}

/// The resolution of a conflict in abstract form: proceed with a
/// destination and handler, skip, cancel, ask, or check another path.
pub enum Resolution {
    Proceed(Seq<char>, DuplicatedFileHandleOps, bool),
    Skip(bool),
    Cancel,
    Ask(Seq<char>),
    Check(Seq<char>),
}

/// One step of conflict resolution for the candidate destination `current`:
/// a path that does not exist is taken as is; an existing one needs the
/// user's answer; a rename gives a new candidate beside the old one (none
/// when the candidate has no parent: cancel); skip and cancel end; any
/// other answer proceeds with the candidate.
pub open spec fn resolve_step(
    current: Seq<char>,
    found: bool,
    answer: Option<(DuplicatedFileHandleOps, bool)>,
) -> Resolution {
    if !found {
        Resolution::Proceed(current, DuplicatedFileHandleOps::NoConflict, false)
    } else {
        match answer {
            None => Resolution::Ask(current),
            Some((handler, apply)) => match handler {
                DuplicatedFileHandleOps::Rename(name) => match std_parent(current) {
                    Some(p) => Resolution::Check(std_join(p, name@)),
                    None => Resolution::Cancel,
                },
                DuplicatedFileHandleOps::Skip => Resolution::Skip(apply),
                DuplicatedFileHandleOps::Cancel => Resolution::Cancel,
                other => Resolution::Proceed(current, other, apply),
            },
        }
    }
}

pub open spec fn file_step_matches(s: ConflictStep<FileConflictResult>, r: Resolution) -> bool {
    match (s, r) {
        (ConflictStep::Done(FileConflictResult::Proceed { dest, handler, apply }), Resolution::Proceed(d, h, a)) => dest@ == d && handler == h && apply == a,
        (ConflictStep::Done(FileConflictResult::Skip { apply }), Resolution::Skip(a)) => apply == a,
        (ConflictStep::Done(FileConflictResult::Cancel), Resolution::Cancel) => true,
        (ConflictStep::Ask(p), Resolution::Ask(q)) => p@ == q,
        (ConflictStep::Check(p), Resolution::Check(q)) => p@ == q,
        _ => false,
    }
}

pub open spec fn dir_step_matches(s: ConflictStep<DirConflictResult>, r: Resolution) -> bool {
    match (s, r) {
        (ConflictStep::Done(DirConflictResult::Proceed { dest, handler, apply }), Resolution::Proceed(d, h, a)) => dest@ == d && handler == h && apply == a,
        (ConflictStep::Done(DirConflictResult::Skip { apply }), Resolution::Skip(a)) => apply == a,
        (ConflictStep::Done(DirConflictResult::Cancel), Resolution::Cancel) => true,
        (ConflictStep::Ask(p), Resolution::Ask(q)) => p@ == q,
        (ConflictStep::Check(p), Resolution::Check(q)) => p@ == q,
        _ => false,
    }
}

/// The candidate for a renamed target, or `None` when the current
/// candidate has no parent.
fn renamed(current: &String, name: &String) -> (r: Option<String>)
    ensures
        match std_parent(current@) {
            Some(p) => r matches Some(s) && s@ == std_join(p, name@),
            None => r is None,
        },
{
    match parent(current.as_str()) {
        Some(p) => Some(join(p.as_str(), name.as_str())),
        None => None,
    }
}

/// One step of resolving a file conflict (see `resolve_step`): whether
/// `current` exists, and the user's answer about it once asked.
pub fn handle_file_duplicate(
    current: String,
    found: bool,
    answer: Option<(DuplicatedFileHandleOps, bool)>,
) -> (s: ConflictStep<FileConflictResult>)
    ensures
        file_step_matches(s, resolve_step(current@, found, answer)),
{
    if !found {
        return ConflictStep::Done(
            FileConflictResult::Proceed {
                dest: current,
                handler: DuplicatedFileHandleOps::NoConflict,
                apply: false,
            },
        );
    }
    match answer {
        None => ConflictStep::Ask(current),
        Some((handler, apply)) => match handler {
            DuplicatedFileHandleOps::Rename(name) => match renamed(&current, &name) {
                Some(p) => ConflictStep::Check(p),
                None => ConflictStep::Done(FileConflictResult::Cancel),
            },
            DuplicatedFileHandleOps::Skip => ConflictStep::Done(FileConflictResult::Skip { apply }),
            DuplicatedFileHandleOps::Cancel => ConflictStep::Done(FileConflictResult::Cancel),
            other => ConflictStep::Done(
                FileConflictResult::Proceed { dest: current, handler: other, apply },
            ),
        },
    }
}

/// One step of resolving a directory conflict (see `resolve_step`).
pub fn handle_dir_duplicate(
    current: String,
    found: bool,
    answer: Option<(DuplicatedFileHandleOps, bool)>,
) -> (s: ConflictStep<DirConflictResult>)
    ensures
        dir_step_matches(s, resolve_step(current@, found, answer)),
{
    if !found {
        return ConflictStep::Done(
            DirConflictResult::Proceed {
                dest: current,
                handler: DuplicatedFileHandleOps::NoConflict,
                apply: false,
            },
        );
    }
    match answer {
        None => ConflictStep::Ask(current),
        Some((handler, apply)) => match handler {
            DuplicatedFileHandleOps::Rename(name) => match renamed(&current, &name) {
                Some(p) => ConflictStep::Check(p),
                None => ConflictStep::Done(DirConflictResult::Cancel),
            },
            DuplicatedFileHandleOps::Skip => ConflictStep::Done(DirConflictResult::Skip { apply }),
            DuplicatedFileHandleOps::Cancel => ConflictStep::Done(DirConflictResult::Cancel),
            other => ConflictStep::Done(
                DirConflictResult::Proceed { dest: current, handler: other, apply },
            ),
        },
    }
}

/// A rename never enters apply-to-all: after it no stored answer applies,
/// to files or directories.
pub proof fn lemma_rename_never_applies_to_all(name: String, apply: bool, is_dir: bool, kind: bool)
    ensures
        stored_for(updated(DuplicatedFileHandleOps::Rename(name), apply, is_dir), kind) is None,
{
}

/// An answer applied to all only answers later conflicts of its own kind:
/// a file answer never answers a directory conflict, nor the other way
/// round; for its own kind it is the stored answer.
pub proof fn lemma_apply_to_all_kind(handler: DuplicatedFileHandleOps, is_dir: bool)
    requires
        !(handler is Rename),
    ensures
        stored_for(updated(handler, true, is_dir), !is_dir) is None,
        stored_for(updated(handler, true, is_dir), is_dir) == Some(handler),
{
}

/// An answer not applied to all leaves no stored answer.
pub proof fn lemma_single_answer_not_stored(handler: DuplicatedFileHandleOps, is_dir: bool, kind: bool)
    ensures
        stored_for(updated(handler, false, is_dir), kind) is None,
{
}

} // verus!
