//! Screen-compositing layer of a character-grid login front end: from a
//! terminal size and a snapshot of application state it computes a nested
//! geometry of non-overlapping rectangles, composes the time and status
//! lines, routes to the active mode's panel renderer, and reports where
//! the text cursor goes — or that it stays hidden.

pub mod command;
pub mod frame;
pub mod geometry;
pub mod state;
pub mod status;
