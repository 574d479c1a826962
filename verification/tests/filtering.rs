use crates_tui::{Action, CrateEntry, KeyEvent, Root};
use crossterm::event::KeyCode;

fn entry(id: u64, name: &str, description: Option<&str>, downloads: u64) -> CrateEntry {
    CrateEntry {
        id,
        name: name.to_string(),
        description: description.map(|d| d.to_string()),
        downloads,
    }
}

fn with_filter(filter: &str) -> Root {
    let mut root = Root::new();
    root.store_crates(
        "q".to_string(),
        vec![
            entry(0, "Serde", Some("A serialization framework"), 500),
            entry(1, "tokio", Some("An asynchronous Runtime"), 400),
            entry(2, "serde_json", None, 300),
            entry(3, "rand", Some("Random numbers"), 200),
        ],
        4,
    );
    root.update(Action::EnterFilterInsert);
    for c in filter.chars() {
        root.handle_key_events(KeyEvent::pressed(KeyCode::Char(c)), &[]);
    }
    root.update(Action::Tick);
    root
}

fn names(root: &Root) -> Vec<String> {
    root.filtered_crates().iter().map(|c| c.name.clone()).collect()
}

#[test]
fn empty_filter_keeps_every_crate() {
    assert_eq!(names(&with_filter("")), vec!["Serde", "tokio", "serde_json", "rand"]);
}

#[test]
fn blank_filter_keeps_every_crate() {
    assert_eq!(names(&with_filter("   ")), vec!["Serde", "tokio", "serde_json", "rand"]);
}

#[test]
fn names_are_compared_in_lowercase() {
    assert_eq!(names(&with_filter("serde")), vec!["Serde", "serde_json"]);
}

#[test]
fn descriptions_count_too() {
    assert_eq!(names(&with_filter("runtime")), vec!["tokio"]);
    assert_eq!(names(&with_filter("numbers")), vec!["rand"]);
}

#[test]
fn every_word_must_match() {
    assert_eq!(names(&with_filter("serde json")), vec!["serde_json"]);
    assert_eq!(names(&with_filter("serde  framework")), vec!["Serde"]);
    assert_eq!(names(&with_filter("tokio rand")), Vec::<String>::new());
}

#[test]
fn filter_words_are_not_lowercased() {
    assert_eq!(names(&with_filter("Serde")), Vec::<String>::new());
}

#[test]
fn filtered_crates_keep_the_download_order() {
    let root = with_filter("a");
    let downloads: Vec<u64> = root.filtered_crates().iter().map(|c| c.downloads).collect();
    assert_eq!(downloads, vec![500, 400, 200]);
}

#[test]
fn filtering_waits_for_the_tick() {
    let mut root = with_filter("");
    root.handle_key_events(KeyEvent::pressed(KeyCode::Char('q')), &[]);
    assert_eq!(root.filtered_crates().len(), 4);
    root.update(Action::Tick);
    assert_eq!(root.filtered_crates().len(), 0);
    assert_eq!(root.scroll_content_length(), 0);
}
