//! The macOS daemon's decisions: tray states, hotkey parsing, and what a
//! worker update means for the tray and the journal.
pub mod hotkey;
pub mod daemon;
pub mod tray;
