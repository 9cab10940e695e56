//! Core state machine of a dual-pane, tabbed terminal file browser.
//!
//! The crate holds the action-driven state store: two panels of tabs, each
//! tab a directory listing with selection, cursor and search state.  All
//! state changes go through the store's dispatch entry point; filesystem
//! work is described by effect values that the embedding program executes.

pub mod actions;
pub mod components;
pub mod config;
pub mod file_system;
pub mod handler;
pub mod keyboard;
pub mod laws;
pub mod paths;
pub mod sort;
pub mod state;
pub mod store;
pub mod textops;
