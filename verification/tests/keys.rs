use crates_tui::{Action, KeyEvent, Mode, Root};
use crossterm::event::{KeyCode, KeyEventKind};

fn press(code: KeyCode) -> KeyEvent {
    KeyEvent::pressed(code)
}

fn picker() -> Root {
    let mut root = Root::new();
    root.update(Action::EnterNormal);
    root
}

#[test]
fn picker_keys_give_commands() {
    let mut root = picker();
    let cases = [
        (KeyCode::Char('q'), Some(Action::Quit)),
        (KeyCode::Char('?'), Some(Action::EnterSearchQueryInsert)),
        (KeyCode::Char('/'), Some(Action::EnterFilterInsert)),
        (KeyCode::Char('j'), Some(Action::MoveSelectionNext)),
        (KeyCode::Down, Some(Action::MoveSelectionNext)),
        (KeyCode::Char('k'), Some(Action::MoveSelectionPrevious)),
        (KeyCode::Up, Some(Action::MoveSelectionPrevious)),
        (KeyCode::Char('l'), Some(Action::IncrementPage)),
        (KeyCode::Right, Some(Action::IncrementPage)),
        (KeyCode::Char('h'), Some(Action::DecrementPage)),
        (KeyCode::Left, Some(Action::DecrementPage)),
        (KeyCode::Char('a'), Some(Action::CargoAddCrate)),
        (KeyCode::PageUp, Some(Action::MoveSelectionTop)),
        (KeyCode::Char('G'), Some(Action::MoveSelectionBottom)),
        (KeyCode::PageDown, Some(Action::MoveSelectionBottom)),
        (KeyCode::Char('r'), Some(Action::ReloadData)),
        (KeyCode::Home, Some(Action::MoveSelectionTop)),
        (KeyCode::End, Some(Action::MoveSelectionBottom)),
        (KeyCode::Esc, Some(Action::Quit)),
        (KeyCode::Enter, Some(Action::ToggleShowCrateInfo)),
        (KeyCode::Char('x'), None),
        (KeyCode::Tab, None),
        (KeyCode::F(1), None),
    ];
    for (code, expected) in cases {
        assert_eq!(root.handle_key_events(press(code), &[]), expected, "{:?}", code);
        assert_eq!(root.mode(), Mode::Picker);
    }
}

#[test]
fn double_g_goes_to_top() {
    let mut root = picker();
    let g = press(KeyCode::Char('g'));
    assert_eq!(root.handle_key_events(g, &[]), None);
    assert_eq!(root.handle_key_events(g, &[press(KeyCode::Char('x'))]), None);
    assert_eq!(root.handle_key_events(g, &[press(KeyCode::Char('x')), g]), Some(Action::MoveSelectionTop));
    assert_eq!(root.handle_key_events(g, &[g, press(KeyCode::Char('x'))]), None);
}

#[test]
fn error_mode_only_closes() {
    let mut root = Root::new();
    root.update(Action::Error("boom".to_string()));
    assert_eq!(root.mode(), Mode::Error);
    assert_eq!(root.error(), &Some("boom".to_string()));
    assert_eq!(root.handle_key_events(press(KeyCode::Char('q')), &[]), None);
    assert_eq!(root.handle_key_events(press(KeyCode::Enter), &[]), Some(Action::CloseError));
    assert_eq!(root.handle_key_events(press(KeyCode::Esc), &[]), Some(Action::CloseError));
    assert_eq!(root.update(Action::CloseError), None);
    assert_eq!(root.error(), &None);
    assert_eq!(root.mode(), Mode::PickerSearchQueryEditing);
}

#[test]
fn typing_in_the_search_prompt_edits_the_query() {
    let mut root = Root::new();
    for c in "serde".chars() {
        assert_eq!(root.handle_key_events(press(KeyCode::Char(c)), &[]), None);
    }
    assert_eq!(root.search(), "serde");
    assert_eq!(root.prompt_value(), "serde");
    assert_eq!(root.prompt_cursor(), 5);
    root.handle_key_events(press(KeyCode::Backspace), &[]);
    assert_eq!(root.search(), "serd");
    root.handle_key_events(press(KeyCode::Home), &[]);
    assert_eq!(root.prompt_cursor(), 0);
    root.handle_key_events(press(KeyCode::Char('x')), &[]);
    assert_eq!(root.search(), "xserd");
    assert_eq!(root.prompt_cursor(), 1);
    // A released key leaves the prompt alone.
    let released = KeyEvent { code: KeyCode::Char('y'), modifiers: 0, kind: KeyEventKind::Release };
    root.handle_key_events(released, &[]);
    assert_eq!(root.search(), "xserd");
    // Control-u clears the line.
    let ctrl_u = KeyEvent { code: KeyCode::Char('u'), modifiers: 2, kind: KeyEventKind::Press };
    root.handle_key_events(ctrl_u, &[]);
    assert_eq!(root.search(), "");
}

#[test]
fn search_prompt_submits_or_leaves() {
    let mut root = Root::new();
    assert_eq!(root.handle_key_events(press(KeyCode::Enter), &[]), Some(Action::SubmitSearchQuery));
    assert_eq!(root.handle_key_events(press(KeyCode::Esc), &[]), Some(Action::EnterNormal));
    assert_eq!(root.mode(), Mode::PickerSearchQueryEditing);
}

#[test]
fn typing_in_the_filter_prompt_edits_the_filter_and_asks_for_details() {
    let mut root = Root::new();
    root.update(Action::EnterFilterInsert);
    assert_eq!(root.mode(), Mode::PickerFilterEditing);
    assert_eq!(root.handle_key_events(press(KeyCode::Char('t')), &[]), Some(Action::GetInfo));
    assert_eq!(root.filter(), "t");
    assert_eq!(root.search(), "");
    assert_eq!(root.selected(), None);
    assert_eq!(root.handle_key_events(press(KeyCode::Enter), &[]), Some(Action::EnterNormal));
    assert_eq!(root.handle_key_events(press(KeyCode::Esc), &[]), Some(Action::EnterNormal));
}

#[test]
fn opening_a_prompt_puts_its_text_in_it() {
    let mut root = Root::new();
    for c in "tok".chars() {
        root.handle_key_events(press(KeyCode::Char(c)), &[]);
    }
    root.update(Action::EnterFilterInsert);
    assert_eq!(root.prompt_value(), "");
    assert_eq!(root.prompt_cursor(), 0);
    root.handle_key_events(press(KeyCode::Char('i')), &[]);
    root.update(Action::EnterSearchQueryInsert);
    assert_eq!(root.prompt_value(), "tok");
    assert_eq!(root.prompt_cursor(), 3);
    root.update(Action::EnterFilterInsert);
    assert_eq!(root.prompt_value(), "i");
    assert_eq!(root.prompt_cursor(), 1);
}

#[test]
fn info_mode_ignores_keys() {
    // No message leads to the Info mode; the key handling leaves it alone.
    let mut root = Root::new();
    root.update(Action::EnterNormal);
    assert_eq!(root.handle_key_events(press(KeyCode::Char('j')), &[]), Some(Action::MoveSelectionNext));
}
