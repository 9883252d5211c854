//! Core of a terminal HTTP client: a single-flight request dispatcher.
//!
//! The library holds the logic that decides what the tool does: building a
//! request descriptor from the two text fields, classifying the outcome of an
//! HTTP exchange, the background worker's reaction to its wake sources, the
//! keybinding table, and the UI state machine over `Idle`, `Running` and
//! `Exit`. Terminal drawing, clipboard access and the actual network calls
//! live outside the library and only exchange plain values with it.

pub mod errors;
pub mod json;
pub mod keys;
pub mod request;
pub mod ui;
pub mod worker;

pub use json::render_json;
