//! A directory listing with an optional selected entry.
use vstd::prelude::*;

use crate::fs::order::{listing_order, key_le, listing_sorted, path_key, sort_listing, ListKey, Listed};
use crate::path::{file_name, std_file_name};
use crate::ui::screen::{dec, push_dec_usize};

verus! {

broadcast use vstd::seq_lib::group_to_multiset_ensures;

/// One entry of a listing.
#[derive(Clone)]
pub struct FileEntry {
    pub path: String,
    pub is_dir: bool,
    pub size: u64,
    pub kind: FileKind,
}

/// The type of a directory entry.
#[derive(Clone, Copy, PartialEq, Eq, Structural, Debug)]
pub enum FileKind {
    Dir,
    File,
    Link,
    Fifo,
    Char,
    Block,
    Socket,
    Unknown,
}

/// Short label of a file kind.
pub open spec fn kind_label(k: FileKind) -> Seq<char> {
    match k {
        FileKind::Dir => "DIR"@,
        FileKind::File => "FILE"@,
        FileKind::Link => "LINK"@,
        FileKind::Fifo => "FIFO"@,
        FileKind::Char => "CHAR"@,
        FileKind::Block => "BLK"@,
        FileKind::Socket => "SOCK"@,
        FileKind::Unknown => "ERR"@,
    }
}

impl FileKind {
    pub fn as_str(self) -> (s: &'static str)
        ensures
            s@ == kind_label(self),
    {
        match self {
            FileKind::Dir => "DIR",
            FileKind::File => "FILE",
            FileKind::Link => "LINK",
            FileKind::Fifo => "FIFO",
            FileKind::Char => "CHAR",
            FileKind::Block => "BLK",
            FileKind::Socket => "SOCK",
            FileKind::Unknown => "ERR",
        }
    }
}

/// What the metadata of a path (not followed through symlinks) says.
#[derive(Clone, Copy)]
pub struct Metadata {
    pub is_symlink: bool,
    pub is_dir: bool,
    pub is_fifo: bool,
    pub is_char_device: bool,
    pub is_block_device: bool,
    pub is_socket: bool,
    pub len: u64,
}

/// Kind of a path from its metadata: a symlink first, then directory,
/// FIFO, character device, block device, socket, else a regular file.
pub open spec fn kind_of(m: Metadata) -> FileKind {
    if m.is_symlink {
        FileKind::Link
    } else if m.is_dir {
        FileKind::Dir
    } else if m.is_fifo {
        FileKind::Fifo
    } else if m.is_char_device {
        FileKind::Char
    } else if m.is_block_device {
        FileKind::Block
    } else if m.is_socket {
        FileKind::Socket
    } else {
        FileKind::File
    }
}

impl FileEntry {
    /// The entry for a path, given its metadata (`None` when it could not
    /// be read: then not a directory, size 0, kind `Unknown`).
    pub fn from_metadata(path: String, meta: Option<Metadata>) -> (e: Self)
        ensures
            e.path == path,
            match meta {
                None => !e.is_dir && e.size == 0 && e.kind == FileKind::Unknown,
                Some(m) => e.is_dir == m.is_dir && e.size == m.len && e.kind == kind_of(m),
            },
    {
        match meta {
            None => FileEntry { path, is_dir: false, size: 0, kind: FileKind::Unknown },
            Some(m) => {
                let kind = if m.is_symlink {
                    FileKind::Link
                } else if m.is_dir {
                    FileKind::Dir
                } else if m.is_fifo {
                    FileKind::Fifo
                } else if m.is_char_device {
                    FileKind::Char
                } else if m.is_block_device {
                    FileKind::Block
                } else if m.is_socket {
                    FileKind::Socket
                } else {
                    FileKind::File
                };
                FileEntry { path, is_dir: m.is_dir, size: m.len, kind }
            },
        }
    }
}

impl Listed for FileEntry {
    open spec fn list_key(&self) -> ListKey {
        path_key(self.is_dir, self.path@)
    }

    fn key(&self) -> (k: (bool, Option<String>)) {
        (self.is_dir, file_name(self.path.as_str()))
    }
}

/// The message of a selection past the end of a listing.
pub open spec fn out_of_bounds_msg(index: usize, len: usize) -> Seq<char> {
    "SELECTING: index out of bounds "@ + dec(index as nat) + " >= "@ + dec(len as nat)
}

/// The message when nothing is selected.
pub open spec fn no_selection_msg() -> Seq<char> {
    "No File Selected!"@
}

/// The message of a selection past the end of a listing.
pub(crate) fn out_of_bounds(index: usize, len: usize) -> (m: String)
    ensures
        m@ == out_of_bounds_msg(index, len),
{
    let mut m = String::new();
    m.append("SELECTING: index out of bounds ");
    push_dec_usize(&mut m, index);
    m.append(" >= ");
    push_dec_usize(&mut m, len);
    assert(m@ =~= out_of_bounds_msg(index, len));
    m
}

/// A listing and the selected entry, if any.
pub struct FileList {
    entries: Vec<FileEntry>,
    selected_index: Option<usize>,
}

impl FileList {
    /// The entries, in order.
    pub closed spec fn entries_view(&self) -> Seq<FileEntry> {
        self.entries@
    }

    /// Index of the selected entry.
    pub closed spec fn selected(&self) -> Option<usize> {
        self.selected_index
    }

    /// The selection, when there is one, is an entry.
    pub open spec fn inv(&self) -> bool {
        self.selected() matches Some(i) ==> i < self.entries_view().len()
    }

    pub fn new() -> (l: Self)
        ensures
            l.entries_view() == Seq::<FileEntry>::empty(),
            l.selected() is None,
            l.inv(),
    {
        FileList { entries: Vec::new(), selected_index: None }
    }

    /// Replaces the entries by a freshly read listing and clears the
    /// selection; a complete listing is sorted, a listing whose reading
    /// failed part way is kept in the order read.
    pub fn load_listing(&mut self, entries: Vec<FileEntry>, complete: bool)
        ensures
            final(self).inv(),
            final(self).selected() is None,
            complete ==> final(self).entries_view() == listing_order(entries@),
            complete ==> listing_sorted(final(self).entries_view()),
            complete ==> final(self).entries_view().to_multiset() == entries@.to_multiset(),
            !complete ==> final(self).entries_view() == entries@,
    {
        self.entries = entries;
        self.selected_index = None;
        if complete {
            self.sort();
        }
    }

    /// Directories first, then by file name; entries with equal keys keep
    /// their order.
    pub fn sort(&mut self)
        requires
            old(self).inv(),
        ensures
            final(self).inv(),
            final(self).entries_view() == listing_order(old(self).entries_view()),
            listing_sorted(final(self).entries_view()),
            final(self).entries_view().to_multiset() == old(self).entries_view().to_multiset(),
            final(self).selected() == old(self).selected(),
    {
        sort_listing(&mut self.entries);
    }

    /// Selects an entry; an index past the end is refused with a message.
    pub fn select(&mut self, index: usize) -> (r: Result<(), String>)
        requires
            old(self).inv(),
        ensures
            final(self).inv(),
            final(self).entries_view() == old(self).entries_view(),
            index < old(self).entries_view().len() ==> r is Ok && final(self).selected() == Some(
                index,
            ),
            index >= old(self).entries_view().len() ==> r == Err::<(), String>(
                r->Err_0,
            ) && r->Err_0@ == out_of_bounds_msg(index, old(self).entries_view().len() as usize)
                && final(self).selected() == old(self).selected(),
    {
        if index >= self.entries.len() {
            return Err(out_of_bounds(index, self.len()));
        }
        self.selected_index = Some(index);
        Ok(())
    }

    pub fn deselect(&mut self)
        ensures
            final(self).inv(),
            final(self).selected() is None,
            final(self).entries_view() == old(self).entries_view(),
    {
        self.selected_index = None;
    }

    /// Path of the selected entry, or a message when nothing is selected.
    pub fn get_selected_file(&self) -> (r: Result<&String, String>)
        requires
            self.inv(),
        ensures
            match self.selected() {
                Some(i) => r == Ok::<&String, String>(&self.entries_view()[i as int].path),
                None => r is Err && r->Err_0@ == no_selection_msg(),
            },
    {
        match self.selected_index {
            Some(i) => Ok(&self.entries[i].path),
            None => Err(String::from_str("No File Selected!")),
        }
    }

    /// Path of an entry, if there is one at that index.
    pub fn get(&self, index: usize) -> (r: Option<&String>)
        ensures
            index < self.entries_view().len() ==> r == Some(&self.entries_view()[index as int].path),
            index >= self.entries_view().len() ==> r is None,
    {
        if index < self.entries.len() {
            Some(&self.entries[index].path)
        } else {
            None
        }
    }

    pub fn len(&self) -> (n: usize)
        ensures
            n == self.entries_view().len(),
    {
        self.entries.len()
    }

    pub fn entries(&self) -> (s: &[FileEntry])
        ensures
            s@ == self.entries_view(),
    {
        self.entries.as_slice()
    }
}

} // verus!
