//! Voice Journal core library.
pub mod api;
pub mod check;
pub mod clock;
pub mod config;
pub mod discovery;
pub mod engine;
pub mod journal;
pub mod metrics;
pub mod path;
pub mod platform;
pub mod text;
