//! Catalogue of a directory, with an optional selected file.
use vstd::prelude::*;

use crate::fs::file_list::{no_selection_msg, out_of_bounds, out_of_bounds_msg};
use crate::fs::order::{listing_order, listing_sorted, sort_listing};
use crate::fs_info::file_info::FileInfo;

verus! {

/// Catalogue of a directory.
pub struct FileList {
    files: Vec<FileInfo>,
    selected_index: Option<usize>,
}

impl FileList {
    pub closed spec fn files_view(&self) -> Seq<FileInfo> {
        self.files@
    }

    pub closed spec fn selected(&self) -> Option<usize> {
        self.selected_index
    }

    /// The selection, when there is one, is a file of the catalogue.
    pub open spec fn inv(&self) -> bool {
        self.selected() matches Some(i) ==> i < self.files_view().len()
    }

    pub fn new() -> (l: Self)
        ensures
            l.files_view() == Seq::<FileInfo>::empty(),
            l.selected() is None,
            l.inv(),
    {
        FileList { files: Vec::new(), selected_index: None }
    }

    /// Replaces the files by a freshly read listing and clears the
    /// selection; a complete listing is sorted, a listing whose reading
    /// failed part way is kept in the order read.
    pub fn load_listing(&mut self, files: Vec<FileInfo>, complete: bool)
        ensures
            final(self).inv(),
            final(self).selected() is None,
            complete ==> final(self).files_view() == listing_order(files@),
            complete ==> listing_sorted(final(self).files_view()),
            complete ==> final(self).files_view().to_multiset() == files@.to_multiset(),
            !complete ==> final(self).files_view() == files@,
    {
        self.clear();
        self.files = files;
        if complete {
            self.sort();
        }
    }

    /// Directories first, then by file name; entries with equal keys keep
    /// their order.
    pub fn sort(&mut self)
        requires
            old(self).inv(),
        ensures
            final(self).inv(),
            final(self).files_view() == listing_order(old(self).files_view()),
            listing_sorted(final(self).files_view()),
            final(self).files_view().to_multiset() == old(self).files_view().to_multiset(),
            final(self).selected() == old(self).selected(),
    {
        sort_listing(&mut self.files);
    }

    /// Selects a file; an index past the end is refused with a message.
    pub fn select(&mut self, index: usize) -> (r: Result<(), String>)
        requires
            old(self).inv(),
        ensures
            final(self).inv(),
            final(self).files_view() == old(self).files_view(),
            index < old(self).files_view().len() ==> r is Ok && final(self).selected() == Some(
                index,
            ),
            index >= old(self).files_view().len() ==> r is Err && r->Err_0@ == out_of_bounds_msg(
                index,
                old(self).files_view().len() as usize,
            ) && final(self).selected() == old(self).selected(),
    {
        if index >= self.files.len() {
            return Err(out_of_bounds(index, self.len()));
        }
        self.selected_index = Some(index);
        Ok(())
    }

    pub fn deselect(&mut self)
        ensures
            final(self).inv(),
            final(self).selected() is None,
            final(self).files_view() == old(self).files_view(),
    {
        self.selected_index = None;
    }

    /// The selected file, or a message when nothing is selected.
    pub fn get_selected_file(&self) -> (r: Result<&FileInfo, String>)
        requires
            self.inv(),
        ensures
            match self.selected() {
                Some(i) => r == Ok::<&FileInfo, String>(&self.files_view()[i as int]),
                None => r is Err && r->Err_0@ == no_selection_msg(),
            },
    {
        match self.selected_index {
            Some(index) => Ok(&self.files[index]),
            None => Err(String::from_str("No File Selected!")),
        }
    }

    /// Appends a file.
    pub fn push(&mut self, file: FileInfo)
        ensures
            final(self).files_view() == old(self).files_view().push(file),
            final(self).selected() == old(self).selected(),
            old(self).inv() ==> final(self).inv(),
    {
        self.files.push(file);
    }

    pub fn get(&self, index: usize) -> (r: Option<&FileInfo>)
        ensures
            index < self.files_view().len() ==> r == Some(&self.files_view()[index as int]),
            index >= self.files_view().len() ==> r is None,
    {
        if index < self.files.len() {
            Some(&self.files[index])
        } else {
            None
        }
    }

    pub fn len(&self) -> (n: usize)
        ensures
            n == self.files_view().len(),
    {
        self.files.len()
    }

    pub fn files(&self) -> (s: &[FileInfo])
        ensures
            s@ == self.files_view(),
    {
        self.files.as_slice()
    }

    fn clear(&mut self)
        ensures
            final(self).files_view() == Seq::<FileInfo>::empty(),
            final(self).selected() is None,
    {
        self.files.clear();
        self.selected_index = None;
    }
}

} // verus!
