//! The cursor: the authoritative logical (row, column) position in a text
//! buffer, and the rule choosing the glyph that stands under it.
//!
//! Screen-space geometry (normalized device coordinates, glyph width and
//! height) is derived data that a renderer computes from the logical
//! position and its own font metrics; it is not part of this core state.

use vstd::prelude::*;
use crate::Position;

verus! {

/// The logical text position of the cursor.
///
/// The pair is `(row, column)`: a zero-based line index and a zero-based
/// offset in Unicode scalar values within that line.  A buffer that owns a
/// cursor keeps it within bounds; see `TextBuffer::wf`.
pub struct Cursor {
    /// Position in the text buffer, as `(row, column)`.
    pub text_pos: (usize, usize),
}

/// The coordinate that `p` names, given the current coordinate `cur`:
/// an `Absolute` position names itself, a `Relative` one an offset from
/// `cur`.
pub open spec fn resolve_coord(cur: int, p: Position<usize, i32>) -> int {
    match p {
        Position::Absolute(a) => a as int,
        Position::Relative(r) => cur + r,
    }
}

impl Cursor {
    /// A fresh cursor at the origin `(0, 0)`.
    pub fn new() -> (c: Cursor)
        ensures
            c.text_pos == (0usize, 0usize),
    {
        Cursor { text_pos: (0, 0) }
    }

    /// Resolves `row` and `col` against the current position and moves there.
    ///
    /// The caller must ensure both resolved coordinates are representable;
    /// the cursor itself knows nothing of any buffer's bounds.
    pub fn move_to(&mut self, row: Position<usize, i32>, col: Position<usize, i32>)
        requires
            0 <= resolve_coord(old(self).text_pos.0 as int, row) <= usize::MAX,
            0 <= resolve_coord(old(self).text_pos.1 as int, col) <= usize::MAX,
        ensures
            final(self).text_pos.0 == resolve_coord(old(self).text_pos.0 as int, row),
            final(self).text_pos.1 == resolve_coord(old(self).text_pos.1 as int, col),
    {
        let r: usize = match row {
            Position::Absolute(a) => a,
            Position::Relative(d) => add_delta(self.text_pos.0, d),
        };
        let c: usize = match col {
            Position::Absolute(a) => a,
            Position::Relative(d) => add_delta(self.text_pos.1, d),
        };
        self.text_pos.0 = r;
        self.text_pos.1 = c;
    }
}

/// `base + delta`, where the caller guarantees the sum stays in `usize`.
fn add_delta(base: usize, delta: i32) -> (r: usize)
    requires
        0 <= base + delta <= usize::MAX,
    ensures
        r == base + delta,
{
    if delta >= 0 {
        base + (delta as usize)
    } else {
        let mag: i64 = -(delta as i64);
        base - (mag as usize)
    }
}

/// The character under the cursor in `line` at column `col`: the character
/// at `col` if one exists, otherwise the last character of the line, or a
/// space placeholder when the line is empty.
pub open spec fn spec_glyph_under(line: Seq<char>, col: int) -> char {
    if 0 <= col < line.len() {
        line[col]
    } else if line.len() == 0 {
        ' '
    } else {
        line[line.len() - 1]
    }
}

/// The glyph a renderer should size the cursor by, per [`spec_glyph_under`].
pub fn glyph_under_cursor(line: &Vec<char>, col: usize) -> (c: char)
    ensures
        c == spec_glyph_under(line@, col as int),
{
    if col < line.len() {
        line[col]
    } else if line.len() == 0 {
        ' '
    } else {
        line[line.len() - 1]
    }
}

} // verus!
