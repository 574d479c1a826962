//! The decision core of a terminal browser for the crates.io registry: what
//! each key and each message does to the screen's state, which background
//! work it asks for, and how the results of that work are taken in.

mod action;
mod crates;
mod key;
mod mode;
mod prompt;
mod text;

pub use action::Action;
pub use crates::CrateEntry;
pub use key::KeyEvent;
pub use model::{PromptOutline, RootView, PAGE_SIZE};
pub use mode::Mode;
pub use root::Root;
pub use task::Task;
mod model;
mod task;
mod root;
mod laws;
