//! Paths held as strings; the path operations are those of `std::path`.
use vstd::prelude::*;

use crate::ui::text::{chars_of, push_char, string_of};

verus! {

/// The final component of a path when it is a normal component
/// (`Path::file_name`).
pub uninterp spec fn std_file_name(p: Seq<char>) -> Option<Seq<char>>;

/// The path without its final component (`Path::parent`).
pub uninterp spec fn std_parent(p: Seq<char>) -> Option<Seq<char>>;

/// A path extended by another, as `Path::join` does on Unix: an absolute
/// `name` replaces `base`; otherwise a `/` goes between them unless `base`
/// is empty or already ends with one.
pub open spec fn std_join(base: Seq<char>, name: Seq<char>) -> Seq<char> {
    if name.len() > 0 && name[0] == '/' {
        name
    } else if base.len() > 0 && base.last() != '/' {
        base + seq!['/'] + name
    } else {
        base + name
    }
}

/// `std::path::Path::file_name`: the final component of the path if it is
/// a normal one (not the root, `.` or `..`). Claimed: the result is the
/// one `std_file_name` names for the path's text.
#[verifier::external_body]
pub(crate) fn file_name(p: &str) -> (r: Option<String>)
    ensures
        match r {
            Some(s) => std_file_name(p@) == Some(s@),
            None => std_file_name(p@) is None,
        },
{
    std::path::Path::new(p).file_name().map(|n| n.to_string_lossy().into_owned())
}

/// `std::path::Path::parent`: the path without its final component, `None`
/// for the root and the empty path. Claimed: the result is the one
/// `std_parent` names for the path's text.
#[verifier::external_body]
pub(crate) fn parent(p: &str) -> (r: Option<String>)
    ensures
        match r {
            Some(s) => std_parent(p@) == Some(s@),
            None => std_parent(p@) is None,
        },
{
    std::path::Path::new(p).parent().map(|q| q.to_string_lossy().into_owned())
}

/// `base` extended by `name` (see `std_join`).
pub(crate) fn join(base: &str, name: &str) -> (r: String)
    ensures
        r@ == std_join(base@, name@),
{
    let b = chars_of(base);
    let n = chars_of(name);
    if n.len() > 0 && n[0] == '/' {
        return name.to_string();
    }
    let mut r = base.to_string();
    if b.len() > 0 && b[b.len() - 1] != '/' {
        push_char(&mut r, '/');
    }
    r.append(name);
    r
}

/// The index of the last `.` in a name, if any.
pub open spec fn last_dot(name: Seq<char>) -> Option<int>
    decreases name.len(),
{
    if name.len() == 0 {
        None
    } else if name.last() == '.' {
        Some(name.len() - 1)
    } else {
        last_dot(name.drop_last())
    }
}

/// The extension of the final component of a path, as `Path::extension`
/// gives it: what follows the last `.` of the file name, unless the name
/// has no `.` or its only one comes first.
pub open spec fn std_extension(p: Seq<char>) -> Option<Seq<char>> {
    match std_file_name(p) {
        None => None,
        Some(n) => match last_dot(n) {
            None => None,
            Some(i) => if i == 0 {
                None
            } else {
                Some(n.skip(i + 1))
            },
        },
    }
}

/// The extension of the path's final component (see `std_extension`).
pub(crate) fn extension(p: &str) -> (r: Option<String>)
    ensures
        match r {
            Some(s) => std_extension(p@) == Some(s@),
            None => std_extension(p@) is None,
        },
{
    let name = match file_name(p) {
        None => return None,
        Some(n) => n,
    };
    let chars = chars_of(name.as_str());
    let mut i = chars.len();
    assert(name@.take(i as int) =~= name@);
    while i > 0 && chars[i - 1] != '.'
        invariant
            i <= chars@.len(),
            chars@ == name@,
            last_dot(name@) == last_dot(name@.take(i as int)),
        decreases i,
    {
        assert(name@.take(i as int).drop_last() =~= name@.take(i - 1));
        i = i - 1;
    }
    assert(name@.take(chars@.len() as int) =~= name@);
    if i == 0 {
        assert(name@.take(0) =~= Seq::<char>::empty());
        return None;
    }
    assert(name@.take(i as int).last() == '.');
    if i == 1 {
        return None;
    }
    assert(name@.skip(i as int) =~= name@.subrange(i as int, chars@.len() as int));
    Some(string_of(&chars, i, chars.len()))
}

} // verus!
