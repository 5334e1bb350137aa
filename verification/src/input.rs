use vstd::prelude::*;

verus! {

/// The keys the interaction core reacts to, in logical form.
#[derive(Clone, Copy, PartialEq, Eq, Structural, Debug)]
pub enum KeyCode {
    Char(char),
    Enter,
    Esc,
    Backspace,
    Delete,
    Up,
    Down,
    Left,
    Right,
    Home,
    End,
    PageUp,
    PageDown,
}

/// A key event with its modifier bits.
#[derive(Clone, Copy, PartialEq, Eq, Structural, Debug)]
pub struct KeyInput {
    pub code: KeyCode,
    pub ctrl: bool,
    pub shift: bool,
    pub alt: bool,
    pub super_key: bool,
}

impl KeyInput {
    /// A key press without modifiers, as a specification value.
    pub open spec fn spec_plain(code: KeyCode) -> KeyInput {
        KeyInput { code, ctrl: false, shift: false, alt: false, super_key: false }
    }

    /// A key press without modifiers.
    pub fn plain(code: KeyCode) -> (k: KeyInput)
        ensures
            k == (KeyInput { code, ctrl: false, shift: false, alt: false, super_key: false }),
    {
        KeyInput { code, ctrl: false, shift: false, alt: false, super_key: false }
    }

    /// A key press with control held.
    pub fn ctrl(code: KeyCode) -> (k: KeyInput)
        ensures
            k == (KeyInput { code, ctrl: true, shift: false, alt: false, super_key: false }),
    {
        KeyInput { code, ctrl: true, shift: false, alt: false, super_key: false }
    }

    /// The save chord: Ctrl+S, Cmd+S, on an upper or lower case `s`.
    pub open spec fn is_save_chord(self) -> bool {
        (self.code == KeyCode::Char('s') || self.code == KeyCode::Char('S'))
            && (self.ctrl || self.super_key)
    }
}

/// Pointer events with left-button semantics: press, drag, release, wheel
/// scrolling and plain movement.
#[derive(Clone, Copy, PartialEq, Eq, Structural, Debug)]
pub enum MouseKind {
    Down,
    Drag,
    Up,
    ScrollUp,
    ScrollDown,
    Moved,
}

/// A pointer event at a terminal cell.
#[derive(Clone, Copy, PartialEq, Eq, Structural, Debug)]
pub struct MouseInput {
    pub kind: MouseKind,
    pub column: u16,
    pub row: u16,
}

/// What the editing engine made of a key event: handled (successfully or
/// not), or a request to open one of the image modals.
#[derive(Debug)]
pub enum KeyResult {
    Handled(bool),
    ImageNamingModal(Vec<u8>),
    ImageRemovalModal,
}

} // verus!
