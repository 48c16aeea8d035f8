//! The keys that the launcher's screens react to.

use vstd::prelude::*;

verus! {

/// A key press, as the launcher's screens see it.
#[derive(Debug, Clone, Copy, PartialEq, Eq, Structural)]
pub enum Key {
    Up,
    Down,
    Enter,
    Esc,
    Tab,
    Backspace,
    Char(char),
    /// Any other key; the screens ignore it.
    Other,
}

} // verus!
