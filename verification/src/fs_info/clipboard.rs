//! The clipboard: at most one path, and whether it was copied or cut.
use vstd::prelude::*;

verus! {

#[derive(Debug, Clone)]
pub struct Clipboard(Option<(String, bool)>);

impl Clipboard {
    /// What the clipboard holds: a path and whether it is a copy (`true`)
    /// or a cut (`false`).
    pub closed spec fn content(&self) -> Option<(String, bool)> {
        self.0
    }

    pub fn new() -> (c: Self)
        ensures
            c.content() is None,
    {
        Clipboard(None)
    }

    /// Replaces the content.
    pub fn set(&mut self, path: String, is_copy: bool)
        ensures
            final(self).content() == Some((path, is_copy)),
    {
        self.0 = Some((path, is_copy))
    }

    pub fn get(&self) -> (r: Option<&(String, bool)>)
        ensures
            match self.content() {
                Some(c) => r == Some(&c),
                None => r is None,
            },
    {
        self.0.as_ref()
    }
}

} // verus!
