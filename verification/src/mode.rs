use vstd::prelude::*;

verus! {

/// Which part of the screen the keyboard currently drives.
#[derive(Debug, Clone, Copy, PartialEq, Eq, Hash, Structural)]
pub enum Mode {
    /// Moving through the table of crates.
    Picker,
    /// Typing the search query that is sent to the registry.
    PickerSearchQueryEditing,
    /// Typing the words that narrow the loaded crates.
    PickerFilterEditing,
    /// Showing information.
    Info,
    /// Showing an error message.
    Error,
}

impl Mode {
    /// Whether the prompt at the bottom of the screen takes the typed keys.
    pub open spec fn is_editing(self) -> bool {
        self == Mode::PickerSearchQueryEditing || self == Mode::PickerFilterEditing
    }
}

impl Default for Mode {
    /// A fresh screen starts in the search prompt.
    fn default() -> (mode: Mode)
        ensures
            mode == Mode::PickerSearchQueryEditing,
    {
        Mode::PickerSearchQueryEditing
    }
}

} // verus!
