//! A verified single-line text editor core for a terminal chat prompt.
//!
//! The buffer owns Unicode text addressed by a character-indexed cursor;
//! byte offsets are computed on demand and never stored. A two-state mode
//! machine decides whether key events edit the buffer or drive application
//! commands, and submitted lines are archived in an append-only history.

pub mod dispatch;
pub mod editor;
pub mod laws;
pub mod unicode;

use vstd::prelude::*;

verus! {

/// Whether key input is interpreted as application commands (`Normal`)
/// or as edits to the input buffer (`Editing`).
#[derive(Clone, Copy, PartialEq, Eq, Structural, Debug)]
pub enum InputMode {
    Normal,
    Editing,
}

} // verus!
