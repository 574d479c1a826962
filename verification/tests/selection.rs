use crates_tui::{Action, CrateEntry, Mode, Root};

fn entry(id: u64, name: &str, downloads: u64) -> CrateEntry {
    CrateEntry { id, name: name.to_string(), description: None, downloads }
}

/// A screen with the given crates loaded (in falling download order) and
/// filtered by a tick.
fn loaded(names: &[&str]) -> Root {
    let mut root = Root::new();
    let fetched = names
        .iter()
        .enumerate()
        .map(|(i, n)| entry(i as u64, n, 1000 - i as u64))
        .collect();
    root.store_crates("q".to_string(), fetched, names.len() as u64);
    root.update(Action::Tick);
    root
}

#[test]
fn new_root_starts_in_search_prompt() {
    let root = Root::new();
    assert_eq!(root.mode(), Mode::PickerSearchQueryEditing);
    assert_eq!(root.page(), 1);
    assert_eq!(root.page_size(), 25);
    assert_eq!(root.selected(), None);
    assert_eq!(root.search(), "");
    assert_eq!(root.filter(), "");
    assert!(root.filtered_crates().is_empty());
    assert!(!root.is_loading());
    assert_eq!(root.error(), &None);
}

#[test]
fn moves_on_an_empty_table_select_nothing() {
    let mut root = Root::new();
    root.next();
    assert_eq!(root.selected(), None);
    root.previous();
    assert_eq!(root.selected(), None);
    root.top();
    assert_eq!(root.selected(), None);
    root.bottom();
    assert_eq!(root.selected(), None);
}

#[test]
fn next_wraps_from_last_row_to_first() {
    let mut root = loaded(&["a", "b", "c"]);
    assert_eq!(root.update(Action::MoveSelectionNext), Some(Action::GetInfo));
    assert_eq!(root.selected(), Some(0));
    root.next();
    root.next();
    assert_eq!(root.selected(), Some(2));
    assert_eq!(root.scroll_position(), 2);
    root.next();
    assert_eq!(root.selected(), Some(0));
    assert_eq!(root.scroll_position(), 0);
}

#[test]
fn previous_wraps_from_first_row_to_last() {
    let mut root = loaded(&["a", "b", "c"]);
    assert_eq!(root.update(Action::MoveSelectionPrevious), Some(Action::GetInfo));
    assert_eq!(root.selected(), Some(0));
    root.previous();
    assert_eq!(root.selected(), Some(2));
    assert_eq!(root.scroll_position(), 2);
    root.previous();
    assert_eq!(root.selected(), Some(1));
}

#[test]
fn next_then_previous_returns_to_the_row() {
    let mut root = loaded(&["a", "b", "c", "d"]);
    for start in 0..4 {
        root.top();
        for _ in 0..start {
            root.next();
        }
        assert_eq!(root.selected(), Some(start));
        root.next();
        root.previous();
        assert_eq!(root.selected(), Some(start));
        root.previous();
        root.next();
        assert_eq!(root.selected(), Some(start));
    }
}

#[test]
fn top_and_bottom_select_the_ends() {
    let mut root = loaded(&["a", "b", "c"]);
    assert_eq!(root.update(Action::MoveSelectionBottom), Some(Action::GetInfo));
    assert_eq!(root.selected(), Some(2));
    assert_eq!(root.scroll_position(), 2);
    assert_eq!(root.update(Action::MoveSelectionTop), Some(Action::GetInfo));
    assert_eq!(root.selected(), Some(0));
    assert_eq!(root.scroll_position(), 0);
}

#[test]
fn enter_normal_selects_the_first_row_when_none_is_selected() {
    let mut root = loaded(&["a", "b"]);
    assert_eq!(root.selected(), None);
    assert_eq!(root.update(Action::EnterNormal), None);
    assert_eq!(root.mode(), Mode::Picker);
    assert_eq!(root.selected(), Some(0));
    root.bottom();
    root.update(Action::EnterNormal);
    assert_eq!(root.selected(), Some(1));
}

#[test]
fn tick_sets_the_scrollbar_length() {
    let root = loaded(&["a", "b", "c"]);
    assert_eq!(root.scroll_content_length(), 3);
    assert_eq!(root.filtered_crates().len(), 3);
}

#[test]
fn moving_down_once_per_row_comes_back() {
    let mut root = loaded(&["a", "b", "c", "d", "e"]);
    root.top();
    root.next();
    root.next();
    assert_eq!(root.selected(), Some(2));
    for _ in 0..5 {
        root.next();
    }
    assert_eq!(root.selected(), Some(2));
}

#[test]
fn editing_the_filter_clears_the_selection() {
    let mut root = loaded(&["a", "b", "c", "d"]);
    root.bottom();
    assert_eq!(root.selected(), Some(3));
    // Shrink the table under the selection.
    root.update(Action::EnterFilterInsert);
    root.handle_key_events(crates_tui::KeyEvent::pressed(crossterm::event::KeyCode::Char('a')), &[]);
    root.update(Action::Tick);
    assert_eq!(root.filtered_crates().len(), 1);
    assert_eq!(root.selected(), None);
}
