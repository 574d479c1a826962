use vstd::prelude::*;

verus! {

/// crossterm's key codes. Declared with their variants visible (no
/// `external_body`), so that verified code can match on them; nothing else
/// is claimed of the type.
#[verifier::external_type_specification]
pub struct ExKeyCode(crossterm::event::KeyCode);

/// crossterm's media key codes, carried inside a key code; declared with
/// their variants visible, nothing else is claimed.
#[verifier::external_type_specification]
pub struct ExMediaKeyCode(crossterm::event::MediaKeyCode);

/// crossterm's modifier key codes, carried inside a key code; declared with
/// their variants visible, nothing else is claimed.
#[verifier::external_type_specification]
pub struct ExModifierKeyCode(crossterm::event::ModifierKeyCode);

/// crossterm's key event kinds (press, repeat, release); declared with their
/// variants visible, nothing else is claimed.
#[verifier::external_type_specification]
pub struct ExKeyEventKind(crossterm::event::KeyEventKind);

/// One key event of the terminal: the key, the modifier bits held with it
/// (crossterm's `KeyModifiers` bits: shift 1, control 2, alt 4, super 8,
/// hyper 16, meta 32), and whether the key went down, repeats or came up.
#[derive(Debug, Clone, Copy, PartialEq, Eq, Hash)]
pub struct KeyEvent {
    pub code: crossterm::event::KeyCode,
    pub modifiers: u8,
    pub kind: crossterm::event::KeyEventKind,
}

impl KeyEvent {
    /// A key pressed without modifiers.
    pub fn pressed(code: crossterm::event::KeyCode) -> (key: KeyEvent)
        ensures
            key == (KeyEvent { code, modifiers: 0, kind: crossterm::event::KeyEventKind::Press }),
    {
        KeyEvent { code, modifiers: 0, kind: crossterm::event::KeyEventKind::Press }
    }
}

} // verus!
