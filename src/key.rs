//! Input events.
use vstd::prelude::*;

verus! {

/// Mostly keys of the keyboard.
#[derive(Clone, Debug, PartialEq, Eq)]
pub enum Key {
    /// Any key which produces a unicode code point.
    Char(char),
    UpArrow,
    DownArrow,
    LeftArrow,
    RightArrow,
    Enter,
    Backspace,
    ShiftLeft,
    ShiftRight,
    CtrlLeft,
    CtrlRight,
    AltLeft,
    AltGr,
    Meta,
    Menu,
    PageUp,
    PageDown,
    Home,
    End,
    Insert,
    Delete,
    CapsLock,
    NumLock,
    ScrollLock,
    /// A function key; the number says which.
    Function(u8),
    /// Not produced by the keyboard but in answer to a sequence sent to the output.
    Cmd(String),
    /// A selection from an in-terminal drop down menu.
    MenuSelection(usize),
}

impl Key {
    pub open spec fn spec_is_modifier(&self) -> bool {
        ||| self is ShiftLeft
        ||| self is ShiftRight
        ||| self is CtrlLeft
        ||| self is CtrlRight
        ||| self is AltLeft
        ||| self is AltGr
        ||| self is CapsLock
    }

    /// Whether the key only modifies the keys pressed with it.
    pub fn is_modifier(&self) -> (r: bool)
        ensures
            r == self.spec_is_modifier(),
    {
        match self {
            Key::ShiftLeft | Key::ShiftRight | Key::CtrlLeft | Key::CtrlRight | Key::AltLeft
            | Key::AltGr | Key::CapsLock => true,
            _ => false,
        }
    }
}

} // verus!
