//! State and transition rules of a terminal tea-brewing menu.
//!
//! The library holds the application state and decides every change to it:
//! key presses move the selection, start a brew or ask to quit, and clock
//! readings advance the brewing progress. Drawing, polling the keyboard and
//! reading the clock are left to the caller, which hands the library the key
//! that was pressed and the current time in milliseconds.
pub mod counter;
pub mod key;
pub mod menu;

pub use counter::Counter;
pub use key::Key;
pub use menu::{App, MENU_LEN, PROGRESS_MAX, TICK_MS};
