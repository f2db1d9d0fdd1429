//! The keys the browser reacts to.
use vstd::prelude::*;

verus! {

/// A key press, as the browser sees it.
#[derive(Debug, Clone, Copy, PartialEq, Eq, Structural)]
pub enum KeyCode {
    Char(char),
    Enter,
    Backspace,
    Esc,
    Up,
    Down,
    Left,
    Right,
    /// Any other key, and any key pressed with Control.
    Unknown,
}

} // verus!
