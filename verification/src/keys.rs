//! Key presses, as the application reads them.

use vstd::prelude::*;

verus! {

/// The key that was pressed. Keys the application has no use for are `Other`.
#[derive(Debug, Clone, Copy, PartialEq, Eq, Structural)]
pub enum KeyCode {
    Backspace,
    Enter,
    Left,
    Right,
    Up,
    Down,
    Home,
    Tab,
    BackTab,
    Delete,
    Esc,
    Char(char),
    Other,
}

/// A key press with the modifier keys held down with it.
#[derive(Debug, Clone, Copy, PartialEq, Eq, Structural)]
pub struct KeyEvent {
    pub code: KeyCode,
    pub shift: bool,
    pub control: bool,
}

impl KeyEvent {
    /// A key pressed alone.
    pub fn plain(code: KeyCode) -> (key: KeyEvent)
        ensures
            key == (KeyEvent { code, shift: false, control: false }),
    {
        KeyEvent { code, shift: false, control: false }
    }

    /// Whether the key is the character `c`.
    pub open spec fn spec_is_char(self, c: char) -> bool {
        self.code == KeyCode::Char(c)
    }

    pub fn is_char(&self, c: char) -> (b: bool)
        ensures
            b == self.spec_is_char(c),
    {
        match self.code {
            KeyCode::Char(pressed) => pressed == c,
            _ => false,
        }
    }
}

} // verus!
