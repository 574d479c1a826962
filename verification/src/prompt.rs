use vstd::prelude::*;

use crate::key::KeyEvent;
use tui_input::backend::crossterm::EventHandler;

verus! {

/// The text and cursor position of the prompt after the editor of the
/// `tui_input` crate has handled `key` on `value` with the cursor at `cursor`.
pub uninterp spec fn prompt_after_key(value: Seq<char>, cursor: usize, key: KeyEvent) -> (Seq<char>, usize);

/// Lets `tui_input::Input::handle_event` (its crossterm backend) handle `key`
/// on a prompt holding `value` with the cursor at `cursor` (clamped to the
/// text, as `Input::with_cursor` does), and returns the new text and cursor.
/// The contract only names the result: the editing rules (insert, delete,
/// word moves, ...) are the crate's.
#[verifier::external_body]
pub(crate) fn edit_prompt(value: String, cursor: usize, key: KeyEvent) -> (edited: (String, usize))
    ensures
        (edited.0@, edited.1) == prompt_after_key(value@, cursor, key),
{
    let modifiers = crossterm::event::KeyModifiers::from_bits_retain(key.modifiers);
    let event = crossterm::event::KeyEvent::new_with_kind(key.code, modifiers, key.kind);
    let mut input = tui_input::Input::new(value).with_cursor(cursor);
    input.handle_event(&crossterm::event::Event::Key(event));
    (input.value().to_string(), input.cursor())
}

} // verus!
