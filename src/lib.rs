//! A small idea board: a greedy word wrapper for fixed-width text fields and
//! the modal key-handling state machine that edits an ordered list of ideas.
pub mod buffer;
pub mod event;
pub mod listing;
pub mod state;
pub mod text;
pub mod wrap;
