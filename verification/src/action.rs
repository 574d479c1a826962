use vstd::prelude::*;

verus! {

/// The messages that drive the screen: what a key, a timer or a finished
/// background task asks of it.
#[derive(Debug, Clone, PartialEq, Eq, Hash)]
pub enum Action {
    Tick,
    Render,
    KeyRefresh,
    Resize(u16, u16),
    Suspend,
    Resume,
    Quit,
    Refresh,
    ShowErrorPopup(String),
    ShowInfoPopup(String),
    ClosePopup,
    Help,
    GetCrates,
    EnterSearchInsertMode,
    EnterFilterInsertMode,
    HandleFilterPromptChange,
    IncrementPage,
    DecrementPage,
    ToggleSortBy,
    EnterNormal,
    ScrollBottom,
    ScrollTop,
    ScrollDown,
    ScrollUp,
    SubmitSearch,
    UpdateCurrentSelectionCrateInfo,
    ReloadData,
    ToggleShowHelp,
    ToggleShowCrateInfo,
    StoreTotalNumberOfCrates(u64),
    MoveSelectionNext,
    MoveSelectionPrevious,
    MoveSelectionTop,
    MoveSelectionBottom,
    EnterSearchQueryInsert,
    EnterFilterInsert,
    SubmitSearchQuery,
    GetInfo,
    Error(String),
    CloseError,
    CargoAddCrate,
}

} // verus!
