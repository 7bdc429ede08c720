//! Editing engine of a modal, vi-like line editor: a line buffer, cursor and
//! viewport arithmetic, the Normal/Insert key state machine and a one-level
//! undo stack of inverse actions.
pub mod buffer;
pub mod command;
pub mod editor;
pub mod laws;
