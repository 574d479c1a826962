use crates_tui::{Action, CrateEntry, Mode, Root, Task};

fn entry(id: u64, name: &str, downloads: u64) -> CrateEntry {
    CrateEntry { id, name: name.to_string(), description: None, downloads }
}

#[test]
fn results_are_sorted_by_falling_downloads_ties_in_order() {
    let mut root = Root::new();
    root.update(Action::ReloadData);
    assert!(root.is_loading());
    let messages = root.store_crates(
        "q".to_string(),
        vec![entry(0, "a", 5), entry(1, "b", 9), entry(2, "c", 5), entry(3, "d", 7), entry(4, "e", 9)],
        42,
    );
    assert!(!root.is_loading());
    let order: Vec<u64> = root.crates().iter().map(|c| c.id).collect();
    assert_eq!(order, vec![1, 4, 3, 0, 2]);
    assert_eq!(
        messages,
        vec![Action::StoreTotalNumberOfCrates(42), Action::Tick, Action::MoveSelectionNext]
    );
}

#[test]
fn no_results_give_an_error_message() {
    let mut root = Root::new();
    let messages = root.store_crates("zzz".to_string(), vec![], 0);
    assert_eq!(messages, vec![Action::Error("Could not find any crates with query `zzz`.".to_string())]);
    root.update(messages[0].clone());
    assert_eq!(root.mode(), Mode::Error);
}

#[test]
fn a_failed_request_gives_an_error_message() {
    let mut root = Root::new();
    root.update(Action::ReloadData);
    let message = root.crates_request_failed("Timeout".to_string());
    assert_eq!(message, Action::Error("API Client Error: Timeout".to_string()));
    assert!(!root.is_loading());
}

#[test]
fn crate_info_errors_and_cargo_outcomes() {
    assert_eq!(
        Root::crate_info_unavailable(),
        Action::Error("Unable to get crate information".to_string())
    );
    assert_eq!(Root::cargo_add_outcome(Ok("added".to_string())), Action::Error("added".to_string()));
    assert_eq!(
        Root::cargo_add_outcome(Err("NotFound".to_string())),
        Action::Error("ERROR: NotFound".to_string())
    );
}

#[test]
fn get_info_asks_for_the_selected_crate() {
    let mut root = Root::new();
    root.store_crates("q".to_string(), vec![entry(0, "alpha", 2), entry(1, "beta", 1)], 2);
    root.update(Action::Tick);
    root.take_tasks();
    // Nothing selected: the first row is selected and asked for.
    assert_eq!(root.update(Action::GetInfo), None);
    assert_eq!(root.selected(), Some(0));
    root.next();
    root.update(Action::GetInfo);
    assert_eq!(
        root.take_tasks(),
        vec![
            Task::LoadCrateInfo { name: "alpha".to_string() },
            Task::LoadCrateInfo { name: "beta".to_string() },
        ]
    );
}

#[test]
fn get_info_on_an_empty_table_does_nothing() {
    let mut root = Root::new();
    root.update(Action::GetInfo);
    assert_eq!(root.selected(), None);
    assert!(root.take_tasks().is_empty());
}

#[test]
fn get_info_skips_a_crate_without_a_name() {
    let mut root = Root::new();
    root.store_crates("q".to_string(), vec![entry(0, "", 2)], 1);
    root.update(Action::Tick);
    root.take_tasks();
    root.update(Action::GetInfo);
    assert!(root.take_tasks().is_empty());
}

#[test]
fn details_are_shown_only_once_loaded() {
    let mut root = Root::new();
    root.update(Action::ToggleShowCrateInfo);
    assert!(!root.show_crate_info());
    root.store_crate_info(entry(7, "serde", 1));
    assert_eq!(root.crate_info(), &Some(entry(7, "serde", 1)));
    root.update(Action::ToggleShowCrateInfo);
    assert!(root.show_crate_info());
    root.update(Action::ToggleShowCrateInfo);
    assert!(!root.show_crate_info());
}

#[test]
fn cargo_add_asks_for_the_crate_shown() {
    let mut root = Root::new();
    root.update(Action::CargoAddCrate);
    assert!(root.take_tasks().is_empty());
    root.store_crate_info(entry(7, "serde", 1));
    root.update(Action::CargoAddCrate);
    assert_eq!(root.take_tasks(), vec![Task::CargoAdd { name: "serde".to_string() }]);
}

#[test]
fn other_messages_change_nothing() {
    let mut root = Root::new();
    for action in [Action::Quit, Action::Render, Action::Resize(3, 4), Action::Help, Action::ScrollDown] {
        assert_eq!(root.update(action), None);
    }
    assert_eq!(root.mode(), Mode::PickerSearchQueryEditing);
    assert!(root.take_tasks().is_empty());
}

#[test]
fn store_total_keeps_the_count() {
    let mut root = Root::new();
    root.update(Action::StoreTotalNumberOfCrates(99));
    assert_eq!(root.total_num_crates(), Some(99));
}
