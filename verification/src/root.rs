use vstd::prelude::*;

use crate::action::Action;
use crate::crates::{filter_crates, is_sorted_by_downloads_of, sort_by_downloads, CrateEntry};
use crate::key::KeyEvent;
use crossterm::event::KeyCode;
use crate::mode::Mode;
use crate::model::{
    cargo_error_message, client_error_message, next_index, no_results_message, picker_command,
    previous_index, selected_position, status_text, PromptOutline, RootView, PAGE_SIZE,
};
use crate::text::decimal_string;
use crate::prompt::edit_prompt;
use crate::task::{task_views, Task};

verus! {

/// The state of the screen that lists crates of the registry: the query and
/// page asked for, the crates loaded and filtered, the selection, the prompt
/// and the messages shown.
pub struct Root {
    page: u64,
    mode: Mode,
    last_events: Vec<KeyEvent>,
    loading: bool,
    search: String,
    filter: String,
    filtered_crates: Vec<CrateEntry>,
    crates: Vec<CrateEntry>,
    crate_info: Option<CrateEntry>,
    total_num_crates: Option<u64>,
    prompt: String,
    cursor: usize,
    show_crate_info: bool,
    error: Option<String>,
    selected: Option<usize>,
    scroll_position: usize,
    scroll_content_length: usize,
    tasks: Vec<Task>,
}

/// The text of an optional string.
pub open spec fn opt_view(s: Option<String>) -> Option<Seq<char>> {
    match s {
        Some(t) => Some(t@),
        None => None,
    }
}

impl View for Root {
    type V = RootView;

    closed spec fn view(&self) -> RootView {
        RootView {
            page: self.page,
            mode: self.mode,
            last_events: self.last_events@,
            loading: self.loading,
            search: self.search@,
            filter: self.filter@,
            filtered_crates: self.filtered_crates@,
            crates: self.crates@,
            crate_info: self.crate_info,
            total_num_crates: self.total_num_crates,
            prompt: self.prompt@,
            cursor: self.cursor,
            show_crate_info: self.show_crate_info,
            error: opt_view(self.error),
            selected: self.selected,
            scroll_position: self.scroll_position,
            scroll_content_length: self.scroll_content_length,
            tasks: task_views(self.tasks@),
        }
    }
}

impl Root {
    /// A fresh screen: page 1, the search prompt open and empty, nothing loaded.
    pub fn new() -> (root: Root)
        ensures
            root@ == RootView::initial(),
    {
        let root = Root {
            page: 1,
            mode: Mode::default(),
            last_events: Vec::new(),
            loading: false,
            search: String::new(),
            filter: String::new(),
            filtered_crates: Vec::new(),
            crates: Vec::new(),
            crate_info: None,
            total_num_crates: None,
            prompt: String::new(),
            cursor: 0,
            show_crate_info: false,
            error: None,
            selected: None,
            scroll_position: 0,
            scroll_content_length: 0,
            tasks: Vec::new(),
        };
        assert(task_views(root.tasks@) =~= Seq::empty());
        root
    }

    /// Moves the selection one row down, from the last row back to the first.
    pub fn next(&mut self)
        ensures
            final(self)@ == old(self)@.select_next(),
    {
        let len = self.filtered_crates.len();
        if len == 0 {
            self.selected = None;
        } else {
            let i = match self.selected {
                Some(i) => if i >= len - 1 { 0 } else { i + 1 },
                None => 0,
            };
            proof {
                assert(i == next_index(old(self)@.selected, old(self)@.filtered_crates.len()));
            }
            self.selected = Some(i);
            self.scroll_position = i;
        }
    }

    /// Moves the selection one row up, from the first row to the last.
    pub fn previous(&mut self)
        ensures
            final(self)@ == old(self)@.select_previous(),
    {
        let len = self.filtered_crates.len();
        if len == 0 {
            self.selected = None;
        } else {
            let i = match self.selected {
                Some(i) => if i == 0 { len - 1 } else { i - 1 },
                None => 0,
            };
            proof {
                assert(i == previous_index(old(self)@.selected, old(self)@.filtered_crates.len()));
            }
            self.selected = Some(i);
            self.scroll_position = i;
        }
    }

    /// Selects the first row.
    pub fn top(&mut self)
        ensures
            final(self)@ == old(self)@.select_top(),
    {
        if self.filtered_crates.len() == 0 {
            self.selected = None;
        } else {
            self.selected = Some(0);
            self.scroll_position = 0;
        }
    }

    /// Selects the last row.
    pub fn bottom(&mut self)
        ensures
            final(self)@ == old(self)@.select_bottom(),
    {
        let len = self.filtered_crates.len();
        if len == 0 {
            self.selected = None;
        } else {
            self.selected = Some(len - 1);
            self.scroll_position = len - 1;
        }
    }

    /// Adds a task to the work asked for.
    fn ask(&mut self, task: Task)
        ensures
            final(self)@ == (RootView { tasks: old(self)@.tasks.push(task@), ..old(self)@ }),
    {
        self.tasks.push(task);
        assert(task_views(self.tasks@) =~= task_views(old(self).tasks@).push(task@));
    }

    /// Keeps the crates that the filter words match, in order.
    fn update_filtered_crates(&mut self)
        ensures
            final(self)@ == (RootView {
                filtered_crates: crate::crates::filtered(old(self)@.crates, old(self)@.filter),
                ..old(self)@
            }),
    {
        self.filtered_crates = filter_crates(&self.crates, self.filter.as_str());
    }

    /// Sets the scrollbar's content length to the number of filtered crates.
    fn update_scrollbar_state(&mut self)
        ensures
            final(self)@ == (RootView {
                scroll_content_length: old(self)@.filtered_crates.len() as usize,
                ..old(self)@
            }),
    {
        self.scroll_content_length = self.filtered_crates.len();
    }

    /// The periodic refresh: forgets the kept key events and filters the
    /// loaded crates anew.
    fn tick(&mut self)
        ensures
            final(self)@ == old(self)@.ticked(),
    {
        self.last_events.clear();
        self.update_filtered_crates();
        self.update_scrollbar_state();
    }

    /// Asks for the current page of results of the current query, clearing
    /// the selection and the details shown.
    fn reload_data(&mut self)
        ensures
            final(self)@ == old(self)@.reloaded(),
    {
        self.selected = None;
        self.crate_info = None;
        self.loading = true;
        let page = if self.page < 1 { 1 } else { self.page };
        let task = Task::LoadCrates { search: self.search.clone(), page, page_size: PAGE_SIZE };
        self.ask(task);
    }

    /// Goes one page forward, as far as the registry's count of crates goes.
    fn increment_page(&mut self)
        ensures
            final(self)@ == old(self)@.page_incremented(),
    {
        if let Some(n) = self.total_num_crates {
            let max_page = n / PAGE_SIZE + 1;
            if self.page < max_page {
                self.page = self.page + 1;
                self.reload_data();
            }
        }
    }

    /// Goes one page back, down to page 1.
    fn decrement_page(&mut self)
        ensures
            final(self)@ == old(self)@.page_decremented(),
    {
        if self.page > 1 {
            self.page = self.page - 1;
            self.reload_data();
        }
    }

    /// Asks for the details of the selected crate, selecting the first row
    /// where none is selected.
    fn get_info(&mut self)
        requires
            old(self)@.selection_in_table(),
        ensures
            final(self)@ == old(self)@.info_requested(),
    {
        let len = self.filtered_crates.len();
        if len == 0 {
            return;
        }
        let index = match self.selected {
            Some(i) => i,
            None => {
                self.selected = Some(0);
                0
            },
        };
        let name = self.filtered_crates[index].name.clone();
        if name.unicode_len() > 0 {
            self.ask(Task::LoadCrateInfo { name });
        }
    }

    /// Asks to add the crate whose details are shown to the current project.
    fn cargo_add(&mut self)
        ensures
            final(self)@ == old(self)@.cargo_add_requested(),
    {
        match &self.crate_info {
            Some(info) => {
                let name = info.name.clone();
                self.ask(Task::CargoAdd { name });
            },
            None => {},
        }
    }

    /// Takes in one message: changes the state as it asks and returns the
    /// message that follows from it, if any.
    pub fn update(&mut self, action: Action) -> (next: Option<Action>)
        requires
            action is GetInfo ==> old(self)@.selection_in_table(),
        ensures
            (final(self)@, next) == old(self)@.on_action(action),
    {
        match action {
            Action::Tick => {
                self.tick();
            },
            Action::StoreTotalNumberOfCrates(n) => {
                self.total_num_crates = Some(n);
            },
            Action::MoveSelectionNext => {
                self.next();
                return Some(Action::GetInfo);
            },
            Action::MoveSelectionPrevious => {
                self.previous();
                return Some(Action::GetInfo);
            },
            Action::MoveSelectionTop => {
                self.top();
                return Some(Action::GetInfo);
            },
            Action::MoveSelectionBottom => {
                self.bottom();
                return Some(Action::GetInfo);
            },
            Action::EnterSearchQueryInsert => {
                self.mode = Mode::PickerSearchQueryEditing;
                self.prompt = self.search.clone();
                self.cursor = self.search.unicode_len();
            },
            Action::EnterFilterInsert => {
                self.mode = Mode::PickerFilterEditing;
                self.prompt = self.filter.clone();
                self.cursor = self.filter.unicode_len();
            },
            Action::EnterNormal => {
                self.mode = Mode::Picker;
                if self.filtered_crates.len() > 0 && self.selected.is_none() {
                    self.selected = Some(0);
                }
            },
            Action::SubmitSearchQuery => {
                self.mode = Mode::Picker;
                self.filter = String::new();
                return Some(Action::ReloadData);
            },
            Action::ReloadData => {
                self.reload_data();
            },
            Action::IncrementPage => {
                self.increment_page();
            },
            Action::DecrementPage => {
                self.decrement_page();
            },
            Action::ToggleShowCrateInfo => {
                self.show_crate_info = !self.show_crate_info;
                if self.crate_info.is_none() {
                    self.show_crate_info = false;
                }
            },
            Action::GetInfo => {
                self.get_info();
            },
            Action::Error(message) => {
                self.error = Some(message);
                self.mode = Mode::Error;
            },
            Action::CloseError => {
                self.error = None;
                self.mode = Mode::PickerSearchQueryEditing;
            },
            Action::CargoAddCrate => {
                self.cargo_add();
            },
            _ => {},
        }
        None
    }

    /// Takes in one key event: edits the prompt where the mode says so and
    /// returns the message that the key gives, if any. `last_key_events` are
    /// the key events before it; only the last one counts (for `gg`).
    pub fn handle_key_events(&mut self, key: KeyEvent, last_key_events: &[KeyEvent]) -> (command:
        Option<Action>)
        ensures
            (final(self)@, command) == old(self)@.on_key(key, last_of(last_key_events@)),
    {
        match self.mode {
            Mode::Error => match key.code {
                KeyCode::Enter => Some(Action::CloseError),
                KeyCode::Esc => Some(Action::CloseError),
                _ => None,
            },
            Mode::Picker => {
                let n = last_key_events.len();
                let last = if n > 0 { Some(last_key_events[n - 1]) } else { None };
                picker_key(key.code, last)
            },
            Mode::PickerSearchQueryEditing => match key.code {
                KeyCode::Esc => Some(Action::EnterNormal),
                KeyCode::Enter => Some(Action::SubmitSearchQuery),
                _ => {
                    let (text, cursor) = edit_prompt(self.prompt.clone(), self.cursor, key);
                    self.search = text.clone();
                    self.prompt = text;
                    self.cursor = cursor;
                    None
                },
            },
            Mode::PickerFilterEditing => match key.code {
                KeyCode::Esc => Some(Action::EnterNormal),
                KeyCode::Enter => Some(Action::EnterNormal),
                _ => {
                    let (text, cursor) = edit_prompt(self.prompt.clone(), self.cursor, key);
                    self.filter = text.clone();
                    self.prompt = text;
                    self.cursor = cursor;
                    self.selected = None;
                    Some(Action::GetInfo)
                },
            },
            Mode::Info => None,
        }
    }

    /// Hands out the background work asked for so far, oldest first.
    pub fn take_tasks(&mut self) -> (tasks: Vec<Task>)
        ensures
            task_views(tasks@) == old(self)@.tasks,
            final(self)@ == (RootView { tasks: seq![], ..old(self)@ }),
    {
        let mut tasks: Vec<Task> = Vec::new();
        std::mem::swap(&mut tasks, &mut self.tasks);
        assert(task_views(self.tasks@) =~= seq![]);
        tasks
    }

    /// Takes in a page of search results fetched for `query`: keeps them
    /// sorted by falling download counts (ties in the order received) and
    /// returns the messages that follow: the count of crates, a tick and a
    /// move of the selection where crates came back, else an error.
    pub fn store_crates(&mut self, query: String, fetched: Vec<CrateEntry>, total: u64) -> (messages:
        Vec<Action>)
        ensures
            is_sorted_by_downloads_of(fetched@, final(self)@.crates),
            final(self)@ == (RootView {
                crates: final(self)@.crates,
                loading: false,
                ..old(self)@
            }),
            fetched@.len() > 0 ==> messages@ == seq![
                Action::StoreTotalNumberOfCrates(total),
                Action::Tick,
                Action::MoveSelectionNext,
            ],
            fetched@.len() == 0 ==> messages@.len() == 1,
            fetched@.len() == 0 ==> (messages@[0] matches Action::Error(m) && m@
                == no_results_message(query@)),
    {
        self.crates = sort_by_downloads(fetched);
        let mut messages: Vec<Action> = Vec::new();
        if self.crates.len() > 0 {
            messages.push(Action::StoreTotalNumberOfCrates(total));
            messages.push(Action::Tick);
            messages.push(Action::MoveSelectionNext);
        } else {
            let mut message = String::from_str("Could not find any crates with query `");
            message.append(query.as_str());
            message.append("`.");
            messages.push(Action::Error(message));
        }
        self.loading = false;
        messages
    }

    /// Takes in the failure to fetch a page of results; `description` says
    /// what failed. Returns the error message to show.
    pub fn crates_request_failed(&mut self, description: String) -> (message: Action)
        ensures
            final(self)@ == (RootView { loading: false, ..old(self)@ }),
            message matches Action::Error(m) && m@ == client_error_message(description@),
    {
        let mut text = String::from_str("API Client Error: ");
        text.append(description.as_str());
        self.loading = false;
        Action::Error(text)
    }

    /// Takes in the fetched details of a crate.
    pub fn store_crate_info(&mut self, info: CrateEntry)
        ensures
            final(self)@ == (RootView { crate_info: Some(info), ..old(self)@ }),
    {
        self.crate_info = Some(info);
    }

    /// The error message to show when the details of a crate could not be fetched.
    pub fn crate_info_unavailable() -> (message: Action)
        ensures
            message matches Action::Error(m) && m@ == "Unable to get crate information"@,
    {
        Action::Error(String::from_str("Unable to get crate information"))
    }

    /// The message to show when `cargo add` has run: what it printed, or what
    /// kept it from starting.
    pub fn cargo_add_outcome(outcome: Result<String, String>) -> (message: Action)
        ensures
            message matches Action::Error(m) && m@ == match outcome {
                Ok(printed) => printed@,
                Err(description) => cargo_error_message(description@),
            },
    {
        match outcome {
            Ok(printed) => Action::Error(printed),
            Err(description) => {
                let mut text = String::from_str("ERROR: ");
                text.append(description.as_str());
                Action::Error(text)
            },
        }
    }

    /// The status shown beside the prompt (see [`status_text`]).
    pub fn status_title(&self) -> (title: String)
        requires
            selected_position(self@.page, self@.selected) <= u64::MAX,
        ensures
            title@ == status_text(self@),
    {
        let found = match self.total_num_crates {
            Some(n) => n,
            None => 0,
        };
        if self.loading {
            let mut title = String::from_str("Loaded ");
            title.append(decimal_string(found).as_str());
            title.append(" ...");
            title
        } else {
            let position: u64 = match self.selected {
                Some(n) => {
                    let pages_before = if self.page >= 1 { self.page - 1 } else { 0 };
                    assert(pages_before * PAGE_SIZE + n + 1 <= u64::MAX);
                    pages_before * PAGE_SIZE + n as u64 + 1
                },
                None => 0,
            };
            let mut title = decimal_string(position);
            title.append("/");
            title.append(decimal_string(found).as_str());
            title
        }
    }

    /// How far the prompt's text scrolls to keep the cursor in a field
    /// `width` cells wide.
    pub fn prompt_scroll(&self, width: usize) -> (scroll: usize)
        ensures
            scroll == (if self@.cursor > (if width > 4 { width - 4 } else { 0 }) {
                self@.cursor - (if width > 4 { width - 4 } else { 0 })
            } else {
                0
            }),
    {
        self.cursor.saturating_sub(width.saturating_sub(4))
    }

    /// Where the terminal cursor stands while the prompt takes keys, for a
    /// prompt drawn at column `x`, row `y`, `width` cells wide, with
    /// `padding` cells of padding; `None` while it does not take keys.
    pub fn prompt_cursor_position(&self, x: u16, y: u16, width: u16, padding: u16) -> (position:
        Option<(u16, u16)>)
        requires
            padding < u16::MAX,
            self@.mode.is_editing() ==> x + 1 + padding + (self@.cursor as u16) <= u16::MAX,
            self@.mode.is_editing() ==> x + (if width > 2 { width - 2 } else { 0 }) <= u16::MAX,
            self@.mode.is_editing() ==> y + 1 + padding <= u16::MAX,
        ensures
            !self@.mode.is_editing() ==> position is None,
            self@.mode.is_editing() ==> position == Some(
                (
                    {
                        let column = x + 1 + padding + (self@.cursor as u16);
                        let limit = x + (if width > 2 { width - 2 } else { 0 });
                        (if column < limit { column } else { limit }) as u16
                    },
                    (y + 1 + padding) as u16,
                ),
            ),
    {
        let margin = 1 + padding;
        if self.mode == Mode::PickerSearchQueryEditing || self.mode == Mode::PickerFilterEditing {
            let column = x + margin + (self.cursor as u16);
            let limit = x + width.saturating_sub(2);
            Some((if column < limit { column } else { limit }, y + margin))
        } else {
            None
        }
    }

    /// How the prompt's outline is drawn in the current mode.
    pub fn prompt_outline(&self) -> (outline: PromptOutline)
        ensures
            outline == match self@.mode {
                Mode::PickerSearchQueryEditing => PromptOutline::SearchQuery,
                Mode::PickerFilterEditing => PromptOutline::FilterQuery,
                _ => PromptOutline::Dimmed,
            },
    {
        match self.mode {
            Mode::PickerSearchQueryEditing => PromptOutline::SearchQuery,
            Mode::PickerFilterEditing => PromptOutline::FilterQuery,
            _ => PromptOutline::Dimmed,
        }
    }
    /// The current mode.
    pub fn mode(&self) -> (mode: Mode)
        ensures
            mode == self@.mode,
    {
        self.mode
    }

    /// The page of search results shown, counted from 1.
    pub fn page(&self) -> (page: u64)
        ensures
            page == self@.page,
    {
        self.page
    }

    /// The number of crates that one page of search results holds.
    pub fn page_size(&self) -> (size: u64)
        ensures
            size == PAGE_SIZE,
    {
        PAGE_SIZE
    }

    /// The query sent to the registry.
    pub fn search(&self) -> (search: &str)
        ensures
            search@ == self@.search,
    {
        self.search.as_str()
    }

    /// The words that narrow the loaded crates.
    pub fn filter(&self) -> (filter: &str)
        ensures
            filter@ == self@.filter,
    {
        self.filter.as_str()
    }

    /// The text in the prompt.
    pub fn prompt_value(&self) -> (value: &str)
        ensures
            value@ == self@.prompt,
    {
        self.prompt.as_str()
    }

    /// The cursor's position in the prompt, in characters.
    pub fn prompt_cursor(&self) -> (cursor: usize)
        ensures
            cursor == self@.cursor,
    {
        self.cursor
    }

    /// The loaded crates that the filter kept at the last tick.
    pub fn filtered_crates(&self) -> (crates: &Vec<CrateEntry>)
        ensures
            crates@ == self@.filtered_crates,
    {
        &self.filtered_crates
    }

    /// The crates of the last page of search results.
    pub fn crates(&self) -> (crates: &Vec<CrateEntry>)
        ensures
            crates@ == self@.crates,
    {
        &self.crates
    }

    /// The crate whose details were fetched last.
    pub fn crate_info(&self) -> (info: &Option<CrateEntry>)
        ensures
            *info == self@.crate_info,
    {
        &self.crate_info
    }

    /// How many crates the registry reports for the query, once known.
    pub fn total_num_crates(&self) -> (total: Option<u64>)
        ensures
            total == self@.total_num_crates,
    {
        self.total_num_crates
    }

    /// Whether the details of the crate are shown beside the table.
    pub fn show_crate_info(&self) -> (show: bool)
        ensures
            show == self@.show_crate_info,
    {
        self.show_crate_info
    }

    /// The error message shown, if any.
    pub fn error(&self) -> (error: &Option<String>)
        ensures
            opt_view(*error) == self@.error,
    {
        &self.error
    }

    /// The selected row of the table, if any.
    pub fn selected(&self) -> (selected: Option<usize>)
        ensures
            selected == self@.selected,
    {
        self.selected
    }

    /// The scrollbar's position.
    pub fn scroll_position(&self) -> (position: usize)
        ensures
            position == self@.scroll_position,
    {
        self.scroll_position
    }

    /// The length of the content that the scrollbar scrolls.
    pub fn scroll_content_length(&self) -> (length: usize)
        ensures
            length == self@.scroll_content_length,
    {
        self.scroll_content_length
    }

    /// Whether a page of search results is being fetched.
    pub fn is_loading(&self) -> (loading: bool)
        ensures
            loading == self@.loading,
    {
        self.loading
    }

    /// Whether the table of crates takes the keys (and is drawn so).
    pub fn table_focused(&self) -> (focused: bool)
        ensures
            focused == (self@.mode == Mode::Picker),
    {
        self.mode == Mode::Picker
    }
}

/// The last of a sequence of key events, if any.
pub open spec fn last_of(events: Seq<KeyEvent>) -> Option<KeyEvent> {
    if events.len() > 0 {
        Some(events.last())
    } else {
        None
    }
}

/// The command that a key gives in the table of crates.
fn picker_key(code: KeyCode, last: Option<KeyEvent>) -> (command: Option<Action>)
    ensures
        command == picker_command(code, last),
{
    match code {
        KeyCode::Char('q') => Some(Action::Quit),
        KeyCode::Char('?') => Some(Action::EnterSearchQueryInsert),
        KeyCode::Char('/') => Some(Action::EnterFilterInsert),
        KeyCode::Char('j') | KeyCode::Down => Some(Action::MoveSelectionNext),
        KeyCode::Char('k') | KeyCode::Up => Some(Action::MoveSelectionPrevious),
        KeyCode::Char('l') | KeyCode::Right => Some(Action::IncrementPage),
        KeyCode::Char('h') | KeyCode::Left => Some(Action::DecrementPage),
        KeyCode::Char('a') => Some(Action::CargoAddCrate),
        KeyCode::Char('g') => match last {
            Some(KeyEvent { code: KeyCode::Char('g'), .. }) => Some(Action::MoveSelectionTop),
            _ => None,
        },
        KeyCode::PageUp => Some(Action::MoveSelectionTop),
        KeyCode::Char('G') | KeyCode::PageDown => Some(Action::MoveSelectionBottom),
        KeyCode::Char('r') => Some(Action::ReloadData),
        KeyCode::Home => Some(Action::MoveSelectionTop),
        KeyCode::End => Some(Action::MoveSelectionBottom),
        KeyCode::Esc => Some(Action::Quit),
        KeyCode::Enter => Some(Action::ToggleShowCrateInfo),
        _ => None,
    }

}

} // verus!
