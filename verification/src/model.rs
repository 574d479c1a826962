use vstd::prelude::*;

use crate::action::Action;
use crate::crates::{filtered, CrateEntry};
use crate::key::KeyEvent;
use crate::mode::Mode;
use crate::prompt::prompt_after_key;
use crate::task::TaskView;

verus! {

/// The number of crates that one page of search results holds.
pub const PAGE_SIZE: u64 = 25;

/// The state of the screen, with texts taken as character sequences.
pub struct RootView {
    /// The page of search results shown, counted from 1.
    pub page: u64,
    pub mode: Mode,
    /// Key events kept since the last tick.
    pub last_events: Seq<KeyEvent>,
    /// Whether a page of search results is being fetched.
    pub loading: bool,
    /// The query sent to the registry.
    pub search: Seq<char>,
    /// The words that narrow the loaded crates.
    pub filter: Seq<char>,
    /// The loaded crates that the filter keeps, as of the last tick.
    pub filtered_crates: Seq<CrateEntry>,
    /// The crates of the last page of search results.
    pub crates: Seq<CrateEntry>,
    /// The crate whose details were fetched last.
    pub crate_info: Option<CrateEntry>,
    /// How many crates the registry reports for the query.
    pub total_num_crates: Option<u64>,
    /// The text in the prompt and the cursor's position in it.
    pub prompt: Seq<char>,
    pub cursor: usize,
    pub show_crate_info: bool,
    pub error: Option<Seq<char>>,
    /// The selected row of the table of filtered crates.
    pub selected: Option<usize>,
    /// The scrollbar's position and the length of the content it scrolls.
    pub scroll_position: usize,
    pub scroll_content_length: usize,
    /// Background work asked for and not yet handed out.
    pub tasks: Seq<TaskView>,
}

/// The row below `selected` among `len` rows, wrapping from the last row (or
/// any row past it) to the first.
pub open spec fn next_index(selected: Option<usize>, len: nat) -> usize {
    match selected {
        Some(i) => if i >= len - 1 { 0 } else { (i + 1) as usize },
        None => 0,
    }
}

/// The row above `selected` among `len` rows, wrapping from the first row to
/// the last.
pub open spec fn previous_index(selected: Option<usize>, len: nat) -> usize {
    match selected {
        Some(i) => if i == 0 { (len - 1) as usize } else { (i - 1) as usize },
        None => 0,
    }
}

/// The command that a key gives in the table of crates; `last` is the key
/// event before it.
pub open spec fn picker_command(code: crossterm::event::KeyCode, last: Option<KeyEvent>) -> Option<Action> {
    match code {
        crossterm::event::KeyCode::Char('q') => Some(Action::Quit),
        crossterm::event::KeyCode::Char('?') => Some(Action::EnterSearchQueryInsert),
        crossterm::event::KeyCode::Char('/') => Some(Action::EnterFilterInsert),
        crossterm::event::KeyCode::Char('j') => Some(Action::MoveSelectionNext),
        crossterm::event::KeyCode::Down => Some(Action::MoveSelectionNext),
        crossterm::event::KeyCode::Char('k') => Some(Action::MoveSelectionPrevious),
        crossterm::event::KeyCode::Up => Some(Action::MoveSelectionPrevious),
        crossterm::event::KeyCode::Char('l') => Some(Action::IncrementPage),
        crossterm::event::KeyCode::Right => Some(Action::IncrementPage),
        crossterm::event::KeyCode::Char('h') => Some(Action::DecrementPage),
        crossterm::event::KeyCode::Left => Some(Action::DecrementPage),
        crossterm::event::KeyCode::Char('a') => Some(Action::CargoAddCrate),
        crossterm::event::KeyCode::Char('g') => match last {
            Some(k) => if k.code == crossterm::event::KeyCode::Char('g') {
                Some(Action::MoveSelectionTop)
            } else {
                None
            },
            None => None,
        },
        crossterm::event::KeyCode::PageUp => Some(Action::MoveSelectionTop),
        crossterm::event::KeyCode::Char('G') => Some(Action::MoveSelectionBottom),
        crossterm::event::KeyCode::PageDown => Some(Action::MoveSelectionBottom),
        crossterm::event::KeyCode::Char('r') => Some(Action::ReloadData),
        crossterm::event::KeyCode::Home => Some(Action::MoveSelectionTop),
        crossterm::event::KeyCode::End => Some(Action::MoveSelectionBottom),
        crossterm::event::KeyCode::Esc => Some(Action::Quit),
        crossterm::event::KeyCode::Enter => Some(Action::ToggleShowCrateInfo),
        _ => None,
    }
}

impl RootView {
    /// A fresh screen: page 1, the search prompt open and empty, nothing loaded.
    pub open spec fn initial() -> RootView {
        RootView {
            page: 1,
            mode: Mode::PickerSearchQueryEditing,
            last_events: seq![],
            loading: false,
            search: seq![],
            filter: seq![],
            filtered_crates: seq![],
            crates: seq![],
            crate_info: None,
            total_num_crates: None,
            prompt: seq![],
            cursor: 0,
            show_crate_info: false,
            error: None,
            selected: None,
            scroll_position: 0,
            scroll_content_length: 0,
            tasks: seq![],
        }
    }

    /// Moves the selection one row down, wrapping to the top.
    pub open spec fn select_next(self) -> RootView {
        if self.filtered_crates.len() == 0 {
            RootView { selected: None, ..self }
        } else {
            let i = next_index(self.selected, self.filtered_crates.len());
            RootView { selected: Some(i), scroll_position: i, ..self }
        }
    }

    /// Moves the selection one row up, wrapping to the bottom.
    pub open spec fn select_previous(self) -> RootView {
        if self.filtered_crates.len() == 0 {
            RootView { selected: None, ..self }
        } else {
            let i = previous_index(self.selected, self.filtered_crates.len());
            RootView { selected: Some(i), scroll_position: i, ..self }
        }
    }

    /// Selects the first row.
    pub open spec fn select_top(self) -> RootView {
        if self.filtered_crates.len() == 0 {
            RootView { selected: None, ..self }
        } else {
            RootView { selected: Some(0), scroll_position: 0, ..self }
        }
    }

    /// Selects the last row.
    pub open spec fn select_bottom(self) -> RootView {
        if self.filtered_crates.len() == 0 {
            RootView { selected: None, ..self }
        } else {
            let last = (self.filtered_crates.len() - 1) as usize;
            RootView { selected: Some(last), scroll_position: last, ..self }
        }
    }

    /// The periodic refresh: forget the kept key events and filter the loaded
    /// crates anew.
    pub open spec fn ticked(self) -> RootView {
        let kept = filtered(self.crates, self.filter);
        RootView {
            last_events: seq![],
            filtered_crates: kept,
            scroll_content_length: kept.len() as usize,
            ..self
        }
    }

    /// Asks for the current page of results for the current query, clearing
    /// the selection and the details shown.
    pub open spec fn reloaded(self) -> RootView {
        RootView {
            selected: None,
            crate_info: None,
            loading: true,
            tasks: self.tasks.push(
                TaskView::LoadCrates {
                    search: self.search,
                    page: if self.page < 1 { 1 } else { self.page },
                    page_size: PAGE_SIZE,
                },
            ),
            ..self
        }
    }

    /// The last page that the reported number of crates fills.
    pub open spec fn last_page(total: u64) -> int {
        total / PAGE_SIZE + 1
    }

    /// Goes one page forward, where the registry's count leaves one.
    pub open spec fn page_incremented(self) -> RootView {
        match self.total_num_crates {
            Some(n) => if self.page < Self::last_page(n) {
                RootView { page: (self.page + 1) as u64, ..self }.reloaded()
            } else {
                self
            },
            None => self,
        }
    }

    /// Goes one page back, down to page 1.
    pub open spec fn page_decremented(self) -> RootView {
        if self.page > 1 {
            RootView { page: (self.page - 1) as u64, ..self }.reloaded()
        } else {
            self
        }
    }

    /// Whether a selected row, if any, lies in the table (asking for the
    /// details of a row past its end fails).
    pub open spec fn selection_in_table(self) -> bool {
        match self.selected {
            Some(i) => self.filtered_crates.len() > 0 ==> i < self.filtered_crates.len(),
            None => true,
        }
    }

    /// Asks for the details of the selected crate, selecting the first row
    /// when none is selected.
    pub open spec fn info_requested(self) -> RootView {
        let n = self.filtered_crates.len();
        if n == 0 {
            self
        } else {
            let chosen = match self.selected {
                Some(i) => self,
                None => RootView { selected: Some(0), ..self },
            };
            let index = match self.selected {
                Some(i) => i as int,
                None => 0,
            };
            let name = self.filtered_crates[index].name@;
            if name.len() > 0 {
                RootView { tasks: chosen.tasks.push(TaskView::LoadCrateInfo { name }), ..chosen }
            } else {
                chosen
            }
        }
    }

    /// Asks to add the crate whose details are shown to the current project.
    pub open spec fn cargo_add_requested(self) -> RootView {
        match self.crate_info {
            Some(info) => RootView {
                tasks: self.tasks.push(TaskView::CargoAdd { name: info.name@ }),
                ..self
            },
            None => self,
        }
    }

    /// The new state and the follow-up message after `action`.
    pub open spec fn on_action(self, action: Action) -> (RootView, Option<Action>) {
        match action {
            Action::Tick => (self.ticked(), None),
            Action::StoreTotalNumberOfCrates(n) => (
                RootView { total_num_crates: Some(n), ..self },
                None,
            ),
            Action::MoveSelectionNext => (self.select_next(), Some(Action::GetInfo)),
            Action::MoveSelectionPrevious => (self.select_previous(), Some(Action::GetInfo)),
            Action::MoveSelectionTop => (self.select_top(), Some(Action::GetInfo)),
            Action::MoveSelectionBottom => (self.select_bottom(), Some(Action::GetInfo)),
            Action::EnterSearchQueryInsert => (
                RootView {
                    mode: Mode::PickerSearchQueryEditing,
                    prompt: self.search,
                    cursor: self.search.len() as usize,
                    ..self
                },
                None,
            ),
            Action::EnterFilterInsert => (
                RootView {
                    mode: Mode::PickerFilterEditing,
                    prompt: self.filter,
                    cursor: self.filter.len() as usize,
                    ..self
                },
                None,
            ),
            Action::EnterNormal => (
                RootView {
                    mode: Mode::Picker,
                    selected: if self.filtered_crates.len() > 0 && self.selected is None {
                        Some(0)
                    } else {
                        self.selected
                    },
                    ..self
                },
                None,
            ),
            Action::SubmitSearchQuery => (
                RootView { mode: Mode::Picker, filter: seq![], ..self },
                Some(Action::ReloadData),
            ),
            Action::ReloadData => (self.reloaded(), None),
            Action::IncrementPage => (self.page_incremented(), None),
            Action::DecrementPage => (self.page_decremented(), None),
            Action::ToggleShowCrateInfo => (
                RootView {
                    show_crate_info: !self.show_crate_info && self.crate_info is Some,
                    ..self
                },
                None,
            ),
            Action::GetInfo => (self.info_requested(), None),
            Action::Error(message) => (
                RootView { error: Some(message@), mode: Mode::Error, ..self },
                None,
            ),
            Action::CloseError => (
                RootView { error: None, mode: Mode::PickerSearchQueryEditing, ..self },
                None,
            ),
            Action::CargoAddCrate => (self.cargo_add_requested(), None),
            _ => (self, None),
        }
    }

    /// The prompt after the editor handled `key`, with the text copied to
    /// `search` or `filter` as the mode says.
    pub open spec fn prompt_edited(self, key: KeyEvent) -> RootView {
        let (text, cursor) = prompt_after_key(self.prompt, self.cursor, key);
        RootView { prompt: text, cursor, ..self }
    }

    /// The new state and the message that a key event gives; `last` is the
    /// key event before it.
    pub open spec fn on_key(self, key: KeyEvent, last: Option<KeyEvent>) -> (RootView, Option<Action>) {
        match self.mode {
            Mode::Error => match key.code {
                crossterm::event::KeyCode::Enter => (self, Some(Action::CloseError)),
                crossterm::event::KeyCode::Esc => (self, Some(Action::CloseError)),
                _ => (self, None),
            },
            Mode::Picker => (self, picker_command(key.code, last)),
            Mode::PickerSearchQueryEditing => match key.code {
                crossterm::event::KeyCode::Esc => (self, Some(Action::EnterNormal)),
                crossterm::event::KeyCode::Enter => (self, Some(Action::SubmitSearchQuery)),
                _ => {
                    let edited = self.prompt_edited(key);
                    (RootView { search: edited.prompt, ..edited }, None)
                },
            },
            Mode::PickerFilterEditing => match key.code {
                crossterm::event::KeyCode::Esc => (self, Some(Action::EnterNormal)),
                crossterm::event::KeyCode::Enter => (self, Some(Action::EnterNormal)),
                _ => {
                    let edited = self.prompt_edited(key);
                    (
                        RootView { filter: edited.prompt, selected: None, ..edited },
                        Some(Action::GetInfo),
                    )
                },
            },
            Mode::Info => (self, None),
        }
    }
}

/// The message shown when a query finds no crates.
pub open spec fn no_results_message(query: Seq<char>) -> Seq<char> {
    "Could not find any crates with query `"@ + query + "`."@
}

/// The message shown when the registry could not be asked; `description`
/// describes the failure.
pub open spec fn client_error_message(description: Seq<char>) -> Seq<char> {
    "API Client Error: "@ + description
}

/// The message shown when `cargo add` could not be started.
pub open spec fn cargo_error_message(description: Seq<char>) -> Seq<char> {
    "ERROR: "@ + description
}

/// The running number (from 1) of the selected crate among all results of
/// the query, or 0 where none is selected.
pub open spec fn selected_position(page: u64, selected: Option<usize>) -> int {
    match selected {
        Some(n) => (if page >= 1 { page - 1 } else { 0 }) * PAGE_SIZE + n + 1,
        None => 0,
    }
}

/// The status shown beside the prompt: the number of crates found while a
/// page loads, else the selected crate's running number and that number.
pub open spec fn status_text(v: RootView) -> Seq<char> {
    let found = match v.total_num_crates {
        Some(n) => n as nat,
        None => 0,
    };
    if v.loading {
        "Loaded "@ + crate::text::decimal(found) + " ..."@
    } else {
        crate::text::decimal(selected_position(v.page, v.selected) as nat) + "/"@
            + crate::text::decimal(found)
    }
}

/// How the prompt's outline is drawn.
#[derive(Debug, Clone, Copy, PartialEq, Eq, Hash, Structural)]
pub enum PromptOutline {
    /// In the color for the search query.
    SearchQuery,
    /// In the color for the filter.
    FilterQuery,
    /// Dimmed, while the prompt does not take keys.
    Dimmed,
}

} // verus!
