use vstd::prelude::*;

verus! {

/// One decoded input event: a plain character, a modified character, or a
/// named key.
#[derive(Debug, Clone, Copy, PartialEq, Eq, Structural, Hash)]
pub enum Key {
    Enter,
    Tab,
    Backspace,
    Esc,
    Left,
    Right,
    Up,
    Down,
    Ins,
    Delete,
    Home,
    End,
    PageUp,
    PageDown,
    /// A function key, by number.
    F(u8),
    Char(char),
    Ctrl(char),
    Alt(char),
    Unknown,
}

} // verus!
