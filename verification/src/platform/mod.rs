//! Platform layers; the macOS menu-bar daemon's decisions live here.
pub mod macos;
