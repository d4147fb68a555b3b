//! Key events as the library reads them.

use vstd::prelude::*;

verus! {

/// The media keys of the `crossterm` crate, as an opaque value.
#[verifier::external_type_specification]
#[verifier::external_body]
pub struct ExMediaKeyCode(crossterm::event::MediaKeyCode);

/// The modifier keys of the `crossterm` crate, as an opaque value.
#[verifier::external_type_specification]
#[verifier::external_body]
pub struct ExModifierKeyCode(crossterm::event::ModifierKeyCode);

/// The modifier bit of the shift key.
pub const SHIFT: u8 = 1;

/// The modifier bit of the control key.
pub const CONTROL: u8 = 2;

/// The modifier bit of the alt key.
pub const ALT: u8 = 4;

/// The key of a key event.
#[derive(Clone, Copy, Debug)]
pub enum KeyCode {
    Backspace,
    Enter,
    Left,
    Right,
    Up,
    Down,
    Home,
    End,
    PageUp,
    PageDown,
    Tab,
    BackTab,
    Delete,
    Insert,
    /// A function key, by its number.
    F(u8),
    /// A character key.
    Char(char),
    Null,
    Esc,
    CapsLock,
    ScrollLock,
    NumLock,
    PrintScreen,
    Pause,
    Menu,
    KeypadBegin,
    /// A media key, as the terminal names it.
    Media(crossterm::event::MediaKeyCode),
    /// A modifier key, as the terminal names it.
    Modifier(crossterm::event::ModifierKeyCode),
}

/// Whether a key went down, is held, or came up.
#[derive(Clone, Copy, Debug, PartialEq, Eq, Structural)]
pub enum KeyEventKind {
    Press,
    Repeat,
    Release,
}

/// A key event of the terminal.
#[derive(Clone, Copy, Debug)]
pub struct KeyEvent {
    pub code: KeyCode,
    /// The modifier keys held, one bit each.
    pub modifiers: u8,
    pub kind: KeyEventKind,
    /// The keyboard state, one bit each.
    pub state: u8,
}

impl KeyEvent {
    /// A press of `code` with `modifiers` held.
    pub fn new(code: KeyCode, modifiers: u8) -> (event: KeyEvent)
        ensures
            event == (KeyEvent { code, modifiers, kind: KeyEventKind::Press, state: 0 }),
    {
        KeyEvent { code, modifiers, kind: KeyEventKind::Press, state: 0 }
    }

    /// The control key is among the modifiers held.
    pub open spec fn has_control(&self) -> bool {
        self.modifiers & CONTROL == CONTROL
    }

    /// This is a press, not a repeat or a release.
    pub fn is_press(&self) -> (press: bool)
        ensures
            press == (self.kind == KeyEventKind::Press),
    {
        match self.kind {
            KeyEventKind::Press => true,
            _ => false,
        }
    }

    /// The control key is among the modifiers held.
    pub fn holds_control(&self) -> (held: bool)
        ensures
            held == self.has_control(),
    {
        self.modifiers & CONTROL == CONTROL
    }
}

} // verus!
