//! The keys that the dashboard listens to.

use vstd::prelude::*;

verus! {

/// A key of the keyboard. `Other` stands for every key that nothing is
/// bound to.
#[derive(Clone, Copy, Debug, PartialEq, Eq, Structural)]
pub enum KeyCode {
    Backspace,
    Enter,
    Left,
    Right,
    Up,
    Down,
    Tab,
    Esc,
    Char(char),
    Other,
}

} // verus!
