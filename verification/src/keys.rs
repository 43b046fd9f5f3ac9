//! Key events as plain values.

use vstd::prelude::*;

verus! {

/// The key that was pressed.
#[derive(Clone, Copy, Debug, PartialEq, Eq, Structural)]
pub enum KeyCode {
    Backspace,
    Enter,
    Left,
    Right,
    Up,
    Down,
    Home,
    End,
    PageUp,
    PageDown,
    Tab,
    BackTab,
    Delete,
    Insert,
    /// A function key, by its number.
    F(u8),
    /// A character key.
    Char(char),
    Null,
    Esc,
}

/// The bit of the shift key in [`KeyModifiers::bits`].
pub const SHIFT: u8 = 1;

/// The bit of the control key in [`KeyModifiers::bits`].
pub const CONTROL: u8 = 2;

/// The bit of the alt key in [`KeyModifiers::bits`].
pub const ALT: u8 = 4;

/// The set of modifier keys held down with a key, one bit each.
#[derive(Clone, Copy, Debug, PartialEq, Eq, Structural)]
pub struct KeyModifiers {
    pub bits: u8,
}

impl KeyModifiers {
    /// No modifier.
    pub fn empty() -> (m: KeyModifiers)
        ensures
            m.bits == 0,
    {
        KeyModifiers { bits: 0 }
    }

    /// The control key alone.
    pub fn control() -> (m: KeyModifiers)
        ensures
            m.bits == CONTROL,
    {
        KeyModifiers { bits: CONTROL }
    }

    /// Whether no modifier is held.
    pub open spec fn spec_is_empty(self) -> bool {
        self.bits == 0
    }

    /// Whether no modifier is held.
    #[verifier::when_used_as_spec(spec_is_empty)]
    pub fn is_empty(self) -> (r: bool)
        ensures
            r == self.spec_is_empty(),
    {
        self.bits == 0
    }
}

/// A key with the modifiers held down with it.
#[derive(Clone, Copy, Debug, PartialEq, Eq, Structural)]
pub struct KeyEvent {
    pub code: KeyCode,
    pub modifiers: KeyModifiers,
}

impl KeyEvent {
    /// The event of `code` with the modifiers `modifiers`.
    pub fn new(code: KeyCode, modifiers: KeyModifiers) -> (key: KeyEvent)
        ensures
            key == (KeyEvent { code, modifiers }),
    {
        KeyEvent { code, modifiers }
    }

    /// The event of `code` with no modifier.
    pub open spec fn plain(code: KeyCode) -> KeyEvent {
        KeyEvent { code, modifiers: KeyModifiers { bits: 0 } }
    }

    /// Whether two events are the same key with the same modifiers.
    pub fn same(&self, other: &KeyEvent) -> (r: bool)
        ensures
            r == (*self == *other),
    {
        self.code == other.code && self.modifiers == other.modifiers
    }
}

} // verus!
