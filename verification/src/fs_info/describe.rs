//! What the preview shows of a file or directory of the listing.
use vstd::prelude::*;

use crate::fs_info::fs_core::FileSystemCore;
use crate::path::{extension, std_extension};

verus! {

/// What describing an entry of the listing needs.
pub enum Description {
    /// Nothing to read: the text is the description.
    Text(String),
    /// The names in the directory at this path are needed.
    Dir(String),
    /// What is known of the file at this path is needed.
    File(String),
}

/// The most names a directory's description shows.
pub const DIR_PREVIEW_CAP: usize = 10;

/// The names, each followed by a line break.
pub open spec fn names_lines(names: Seq<Seq<char>>) -> Seq<char>
    decreases names.len(),
{
    if names.len() == 0 {
        Seq::empty()
    } else {
        names_lines(names.drop_last()) + names.last() + seq!['\n']
    }
}

/// The MIME type that `infer` finds for the first bytes of a file.
pub uninterp spec fn infer_mime_of(head: Seq<u8>) -> Option<Seq<char>>;

/// `infer::get` on the first bytes of a file, with the MIME type of the
/// kind it finds (`Type::mime_type`). Claimed: the result is the one
/// `infer_mime_of` names for the bytes.
#[verifier::external_body]
fn infer_mime(head: &[u8]) -> (r: Option<String>)
    ensures
        match r {
            Some(s) => infer_mime_of(head@) == Some(s@),
            None => infer_mime_of(head@) is None,
        },
{
    infer::get(head).map(|kind| kind.mime_type().to_string())
}

/// What is known of a file, as read from the file system.
pub struct FileFacts {
    pub is_dir: bool,
    pub is_symlink: bool,
    /// Where a symbolic link points, when it could be read.
    pub link_target: Option<String>,
    /// The first bytes of the file (at most 8192), `None` when they could
    /// not be read.
    pub head: Option<Vec<u8>>,
}

/// The description of a directory from its names, in the order read;
/// `None` when it could not be read.
pub open spec fn dir_text(names: Option<Seq<Seq<char>>>) -> Seq<char> {
    match names {
        None => "Fail to get preview"@,
        Some(ns) => names_lines(ns.take(if ns.len() < DIR_PREVIEW_CAP {
            ns.len() as int
        } else {
            DIR_PREVIEW_CAP as int
        })),
    }
}

/// The description of the file at `path`: a directory, a symbolic link
/// and where it points, the MIME type of its content, else its extension,
/// else `data`; `None` facts, or content that could not be read, fail.
pub open spec fn file_text(path: Seq<char>, facts: Option<(bool, bool, Option<Seq<char>>, Option<Seq<u8>>)>) -> Seq<char> {
    match facts {
        None => "Fail to get preview"@,
        Some((is_dir, is_symlink, target, head)) => if is_dir {
            "directory"@
        } else if is_symlink {
            match target {
                Some(t) => "symbolic link -> "@ + t,
                None => "symbolic link"@,
            }
        } else {
            match head {
                None => "Fail to get preview"@,
                Some(h) => content_text(path, infer_mime_of(h)),
            }
        },
    }
}

/// The description of a regular file's content: the MIME type found for
/// it, else its extension, else `data`.
pub open spec fn content_text(path: Seq<char>, mime: Option<Seq<char>>) -> Seq<char> {
    match mime {
        Some(m) => m,
        None => match std_extension(path) {
            Some(e) => e + " file"@,
            None => "data"@,
        },
    }
}

/// The description of the content of the regular file at `path`, given
/// the MIME type found for its first bytes, if any (see `content_text`).
pub fn content_description(path: &str, mime: Option<String>) -> (s: String)
    ensures
        s@ == content_text(
            path@,
            match mime {
                Some(m) => Some(m@),
                None => None,
            },
        ),
{
    match mime {
        Some(m) => m,
        None => match extension(path) {
            Some(e) => {
                let mut s = e;
                s.append(" file");
                s
            },
            None => String::from_str("data"),
        },
    }
}

/// The facts as plain values.
pub open spec fn facts_view(f: Option<FileFacts>) -> Option<(bool, bool, Option<Seq<char>>, Option<Seq<u8>>)> {
    match f {
        None => None,
        Some(x) => Some(
            (
                x.is_dir,
                x.is_symlink,
                match x.link_target {
                    Some(t) => Some(t@),
                    None => None,
                },
                match x.head {
                    Some(h) => Some(h@),
                    None => None,
                },
            ),
        ),
    }
}

/// The description of a directory from the names read in it, at most
/// `DIR_PREVIEW_CAP` of them, one per line.
pub fn dir_description(names: Option<Vec<String>>) -> (s: String)
    ensures
        s@ == dir_text(
            match names {
                None => None,
                Some(v) => Some(v@.map_values(|n: String| n@)),
            },
        ),
{
    match names {
        None => String::from_str("Fail to get preview"),
        Some(v) => {
            let ghost ns = v@.map_values(|n: String| n@);
            let cap = if v.len() < DIR_PREVIEW_CAP {
                v.len()
            } else {
                DIR_PREVIEW_CAP
            };
            let mut out = String::new();
            let mut i: usize = 0;
            while i < cap
                invariant
                    i <= cap <= v.len(),
                    ns == v@.map_values(|n: String| n@),
                    out@ == names_lines(ns.take(i as int)),
                decreases cap - i,
            {
                out.append(v[i].as_str());
                out.append("\n");
                proof {
                    reveal_strlit("\n");
                    assert(ns.take(i + 1).drop_last() =~= ns.take(i as int));
                    assert(ns.take(i + 1).last() == v@[i as int]@);
                }
                i = i + 1;
                assert(out@ =~= names_lines(ns.take(i as int)));
            }
            out
        },
    }
}

/// The description of the file at `path` from what is known of it.
pub fn file_description(path: &str, facts: Option<FileFacts>) -> (s: String)
    ensures
        s@ == file_text(path@, facts_view(facts)),
{
    match facts {
        None => String::from_str("Fail to get preview"),
        Some(f) => if f.is_dir {
            String::from_str("directory")
        } else if f.is_symlink {
            match f.link_target {
                Some(t) => {
                    let mut s = String::from_str("symbolic link -> ");
                    s.append(t.as_str());
                    s
                },
                None => String::from_str("symbolic link"),
            }
        } else {
            match f.head {
                None => String::from_str("Fail to get preview"),
                Some(h) => content_description(path, infer_mime(h.as_slice())),
            }
        },
    }
}

impl FileSystemCore {
    /// What describing the file at `index` needs: `Nothing Here` past the
    /// end of the listing, else the names in a directory or the facts of a
    /// file (see `dir_description` and `file_description`).
    pub fn get_description(&self, index: usize) -> (d: Description)
        ensures
            index >= self.files_view().len() ==> (d matches Description::Text(t) && t@
                == "Nothing Here"@),
            index < self.files_view().len() ==> if self.files_view()[index as int].dir_view() {
                d matches Description::Dir(p) && p@ == self.files_view()[index as int].path_view()
            } else {
                d matches Description::File(p) && p@ == self.files_view()[index as int].path_view()
            },
    {
        match self.get_file(index) {
            None => Description::Text(String::from_str("Nothing Here")),
            Some(f) => if f.is_dir() {
                Description::Dir(f.path().clone())
            } else {
                Description::File(f.path().clone())
            },
        }
    }
}

} // verus!
