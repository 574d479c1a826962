# crates_tui

The decision core of a terminal browser for the crates.io registry, written
in Verus and proved against its contracts.

- `src/` is the verified library. `root.rs` holds the screen's state and
  what each message (`update`) and key (`handle_key_events`) does to it;
  `model.rs` states those steps over `RootView`; `crates.rs` filters the
  loaded crates by the filter words and sorts fetched pages by downloads;
  `text.rs` splits text into words and finds runs of characters; `prompt.rs`
  calls the `tui_input` editor; `laws.rs` proves what every step keeps.
  The library never performs I/O: it queues `Task`s and takes their
  outcomes back (`store_crates`, `store_crate_info`, ...).
- `app/` is the terminal side: it runs the queued tasks against the
  registry and `cargo`, and draws the screen with `ratatui`.
- `tests/` exercises the library on concrete values.
