use crates_tui::{Action, Root, Task};

fn load_tasks(root: &mut Root) -> Vec<(String, u64, u64)> {
    root.take_tasks()
        .into_iter()
        .filter_map(|t| match t {
            Task::LoadCrates { search, page, page_size } => Some((search, page, page_size)),
            _ => None,
        })
        .collect()
}

#[test]
fn increment_page_needs_the_count_of_crates() {
    let mut root = Root::new();
    assert_eq!(root.update(Action::IncrementPage), None);
    assert_eq!(root.page(), 1);
    assert!(root.take_tasks().is_empty());
}

#[test]
fn increment_page_stops_at_the_last_page() {
    let mut root = Root::new();
    root.update(Action::StoreTotalNumberOfCrates(60));
    assert_eq!(root.total_num_crates(), Some(60));
    // 60 crates: 60 / 25 + 1 = 3 pages.
    root.update(Action::IncrementPage);
    assert_eq!(root.page(), 2);
    root.update(Action::IncrementPage);
    assert_eq!(root.page(), 3);
    root.update(Action::IncrementPage);
    assert_eq!(root.page(), 3);
    assert_eq!(load_tasks(&mut root), vec![(String::new(), 2, 25), (String::new(), 3, 25)]);
}

#[test]
fn decrement_page_stops_at_page_one() {
    let mut root = Root::new();
    root.update(Action::DecrementPage);
    assert_eq!(root.page(), 1);
    assert!(root.take_tasks().is_empty());
    root.update(Action::StoreTotalNumberOfCrates(100));
    root.update(Action::IncrementPage);
    root.update(Action::DecrementPage);
    assert_eq!(root.page(), 1);
    assert_eq!(load_tasks(&mut root), vec![(String::new(), 2, 25), (String::new(), 1, 25)]);
}

#[test]
fn page_forward_then_back_returns() {
    let mut root = Root::new();
    root.update(Action::StoreTotalNumberOfCrates(1000));
    root.update(Action::IncrementPage);
    root.update(Action::IncrementPage);
    let page = root.page();
    root.update(Action::IncrementPage);
    root.update(Action::DecrementPage);
    assert_eq!(root.page(), page);
}

#[test]
fn reload_asks_for_the_current_query_and_clears_the_selection() {
    let mut root = Root::new();
    root.store_crates("x".to_string(), vec![crates_tui::CrateEntry {
        id: 0,
        name: "x".to_string(),
        description: None,
        downloads: 1,
    }], 1);
    root.update(Action::Tick);
    root.update(Action::MoveSelectionNext);
    root.store_crate_info(root.filtered_crates()[0].clone());
    assert_eq!(root.selected(), Some(0));
    assert_eq!(root.update(Action::ReloadData), None);
    assert_eq!(root.selected(), None);
    assert_eq!(root.crate_info(), &None);
    assert!(root.is_loading());
    assert_eq!(load_tasks(&mut root), vec![(String::new(), 1, 25)]);
}

#[test]
fn submitting_a_search_clears_the_filter_and_reloads() {
    let mut root = Root::new();
    root.update(Action::EnterFilterInsert);
    root.handle_key_events(crates_tui::KeyEvent::pressed(crossterm::event::KeyCode::Char('z')), &[]);
    assert_eq!(root.filter(), "z");
    root.update(Action::EnterSearchQueryInsert);
    assert_eq!(root.update(Action::SubmitSearchQuery), Some(Action::ReloadData));
    assert_eq!(root.filter(), "");
    assert_eq!(root.mode(), crates_tui::Mode::Picker);
}
