//! Key presses as the controller reads them.

use vstd::prelude::*;

verus! {

/// The key that was pressed.
#[derive(Debug, Clone, Copy, PartialEq, Eq, Structural)]
pub enum KeyCode {
    Char(char),
    Enter,
    Esc,
    Backspace,
    Up,
    Down,
    /// Any key the controller has no use for.
    Other,
}

/// The modifier keys held with it.
#[derive(Debug, Clone, Copy, PartialEq, Eq, Structural)]
pub enum KeyModifiers {
    /// No modifier at all.
    Plain,
    /// Control and nothing else.
    Control,
    /// Any other combination.
    Other,
}

impl KeyModifiers {
    /// The modifiers of a bit set in which control is bit 1 (value 2) and
    /// every other bit is another modifier key.
    pub open spec fn of_bits(bits: u8) -> KeyModifiers {
        if bits == 0 {
            KeyModifiers::Plain
        } else if bits == 2 {
            KeyModifiers::Control
        } else {
            KeyModifiers::Other
        }
    }

    /// Reads a modifier bit set.
    pub fn from_bits(bits: u8) -> (out: KeyModifiers)
        ensures
            out == KeyModifiers::of_bits(bits),
    {
        if bits == 0 {
            KeyModifiers::Plain
        } else if bits == 2 {
            KeyModifiers::Control
        } else {
            KeyModifiers::Other
        }
    }
}

/// One key press.
#[derive(Debug, Clone, Copy, PartialEq, Eq, Structural)]
pub struct KeyEvent {
    pub code: KeyCode,
    pub modifiers: KeyModifiers,
}

impl KeyEvent {
    pub fn new(code: KeyCode, modifiers: KeyModifiers) -> (out: KeyEvent)
        ensures
            out == (KeyEvent { code, modifiers }),
    {
        KeyEvent { code, modifiers }
    }

    /// The character `c` with no modifier.
    pub open spec fn is_plain(self, c: char) -> bool {
        self.code == KeyCode::Char(c) && self.modifiers == KeyModifiers::Plain
    }

    /// The character `c` with Control.
    pub open spec fn is_control(self, c: char) -> bool {
        self.code == KeyCode::Char(c) && self.modifiers == KeyModifiers::Control
    }
}

} // verus!
