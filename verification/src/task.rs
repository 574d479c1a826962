use vstd::prelude::*;

verus! {

/// Background work that the screen asks for; the caller runs it and hands
/// the outcome back.
#[derive(Debug, Clone, PartialEq, Eq)]
pub enum Task {
    /// Fetch one page of the registry's search results for `search`.
    LoadCrates { search: String, page: u64, page_size: u64 },
    /// Fetch the full record of the crate called `name`.
    LoadCrateInfo { name: String },
    /// Run `cargo add` for the crate called `name`.
    CargoAdd { name: String },
}

/// A task with its texts taken as character sequences.
pub enum TaskView {
    LoadCrates { search: Seq<char>, page: u64, page_size: u64 },
    LoadCrateInfo { name: Seq<char> },
    CargoAdd { name: Seq<char> },
}

impl View for Task {
    type V = TaskView;

    open spec fn view(&self) -> TaskView {
        match self {
            Task::LoadCrates { search, page, page_size } => TaskView::LoadCrates {
                search: search@,
                page: *page,
                page_size: *page_size,
            },
            Task::LoadCrateInfo { name } => TaskView::LoadCrateInfo { name: name@ },
            Task::CargoAdd { name } => TaskView::CargoAdd { name: name@ },
        }
    }
}

/// The views of a sequence of tasks.
pub open spec fn task_views(tasks: Seq<Task>) -> Seq<TaskView> {
    tasks.map_values(|t: Task| t@)
}

} // verus!
