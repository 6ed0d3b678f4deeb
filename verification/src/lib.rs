//! Core of a terminal-multiplexer dashboard: a hierarchical selection model
//! (sessions, windows, panes, preview) with identity-preserving cascading
//! refresh, a modal action engine that turns key events into navigation or
//! multiplexer commands, and a geometry engine that projects a window's pane
//! layout onto a viewport.
//!
//! The core is pure: multiplexer queries, the clock and the terminal are
//! external collaborators. Callers fetch snapshots and pass them in, execute
//! the commands the action engine hands back, and feed the current time to
//! every time-dependent entry point.

pub mod actions;
pub mod app;
pub mod event;
pub mod laws;
pub mod minimap;
pub mod model;
pub mod parse;
pub mod selection;
pub mod text;
