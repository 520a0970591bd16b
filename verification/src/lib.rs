//! State and key handling of a terminal SSH host manager.
//!
//! The crate holds everything the interface decides: which hosts are listed,
//! which one is selected, what each key does and when the program stops.
//! Drawing and reading the terminal are left to the program that uses it.

pub mod app;
pub mod event;
pub mod host;
mod list_state;
pub mod model;
pub mod selection;
