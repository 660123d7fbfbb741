//! Text-editing core of a line-oriented screen editor.
//!
//! A [`buffer::TextBuffer`] owns an ordered sequence of lines (each a
//! sequence of Unicode scalar values), a [`cursor::Cursor`] holding the
//! logical (row, column) position, and a view origin for scrolling.  All
//! editing and navigation operations keep the cursor inside the buffer:
//! `0 <= row < lines.len()` and `0 <= col <= lines[row].len()`.
//!
//! Rendering, window management and font handling are collaborators of this
//! core, not part of it: a renderer reads the lines and the cursor state and
//! supplies its own font metrics.

use vstd::prelude::*;

pub mod buffer;
pub mod cursor;
pub mod input;
pub mod laws;
pub mod text;

verus! {

/// Either an absolute coordinate or a coordinate relative to the current
/// cursor position.  Used uniformly for the row and the column of a move;
/// constructed and consumed within a single call.
pub enum Position<A, R> {
    Absolute(A),
    Relative(R),
}

/// Errors when resolving a [`Position`] against the current cursor state.
pub enum PositionError {
    /// An absolute coordinate is out of bounds.
    InvalidAbsolute,
    /// A relative coordinate is out of bounds.
    InvalidRelative,
}

} // verus!
