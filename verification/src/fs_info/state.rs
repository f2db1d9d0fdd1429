//! The state shown to the user: a flag and a message.
use vstd::prelude::*;

verus! {

/// File system state flag.
#[derive(Debug, PartialEq, Eq, Clone, Copy, Structural)]
pub enum StateFlag {
    Ready,
    Error,
    Operating,
}

/// A state flag and its message.
pub struct FileSysState {
    flag: StateFlag,
    info: String,
}

impl FileSysState {
    pub closed spec fn flag_view(&self) -> StateFlag {
        self.flag
    }

    pub closed spec fn info_view(&self) -> Seq<char> {
        self.info@
    }

    /// Operating, "Initializing".
    pub fn new() -> (s: Self)
        ensures
            s.flag_view() == StateFlag::Operating,
            s.info_view() == "Initializing"@,
    {
        FileSysState { flag: StateFlag::Operating, info: String::from_str("Initializing") }
    }

    pub fn set(&mut self, flag: StateFlag, info: String)
        ensures
            final(self).flag_view() == flag,
            final(self).info_view() == info@,
    {
        self.flag = flag;
        self.info = info;
    }

    pub fn flag(&self) -> (f: StateFlag)
        ensures
            f == self.flag_view(),
    {
        self.flag
    }

    pub fn info(&self) -> (s: &str)
        ensures
            s@ == self.info_view(),
    {
        self.info.as_str()
    }
}

} // verus!
