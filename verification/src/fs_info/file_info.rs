//! What is known of one file: name, path, size and whether it is a directory.
use vstd::prelude::*;

use crate::fs::order::{path_key, ListKey, Listed};
use crate::path::file_name;

verus! {

/// Single file information.
#[derive(Debug)]
pub struct FileInfo {
    name: String,
    path: String,
    size: u64,
    is_dir: bool,
}

impl FileInfo {
    pub closed spec fn name_view(&self) -> Seq<char> {
        self.name@
    }

    pub closed spec fn path_view(&self) -> Seq<char> {
        self.path@
    }

    pub closed spec fn size_view(&self) -> u64 {
        self.size
    }

    pub closed spec fn dir_view(&self) -> bool {
        self.is_dir
    }

    pub fn new(name: String, path: String, size: u64, is_dir: bool) -> (f: Self)
        ensures
            f.name_view() == name@,
            f.path_view() == path@,
            f.size_view() == size,
            f.dir_view() == is_dir,
    {
        FileInfo { name, path, size, is_dir }
    }

    pub fn name(&self) -> (s: &str)
        ensures
            s@ == self.name_view(),
    {
        self.name.as_str()
    }

    pub fn path(&self) -> (p: &String)
        ensures
            p@ == self.path_view(),
    {
        &self.path
    }

    pub fn size(&self) -> (n: u64)
        ensures
            n == self.size_view(),
    {
        self.size
    }

    pub fn is_dir(&self) -> (b: bool)
        ensures
            b == self.dir_view(),
    {
        self.is_dir
    }
}

impl Clone for FileInfo {
    fn clone(&self) -> (r: Self)
        ensures
            r == *self,
    {
        FileInfo {
            name: self.name.clone(),
            path: self.path.clone(),
            size: self.size,
            is_dir: self.is_dir,
        }
    }
}

impl Listed for FileInfo {
    open spec fn list_key(&self) -> ListKey {
        path_key(self.dir_view(), self.path_view())
    }

    fn key(&self) -> (k: (bool, Option<String>)) {
        (self.is_dir, file_name(self.path.as_str()))
    }
}

} // verus!
