//! The text buffer: an ordered sequence of lines, a cursor, and a view
//! origin, with the editing and navigation operations of the editor core.
//!
//! Every operation keeps the cursor inside the buffer, as stated by
//! [`TextBuffer::wf`]: `0 <= row < lines.len()` and
//! `0 <= col <= lines[row].len()`.  A buffer with zero lines is a degenerate
//! state that the operations handle without panicking: the cursor then rests
//! at the origin.
//!
//! Columns count Unicode scalar values, so a line is held as a `Vec<char>`
//! and its mathematical model is a `Seq<char>`.

use vstd::prelude::*;
use vstd::math::min;
use vstd::math::max;
use crate::cursor::Cursor;
use crate::text::lines_of;
use crate::text::lines_view;
use crate::text::split_lines;

verus! {

/// Whether the buffer holds recognized source code or plain text.
#[derive(Debug, PartialEq, Eq, Clone, Copy)]
pub enum BufferType {
    Lang(Lang),
    Clear,
}

/// The programming languages a buffer can be tagged with.
#[derive(Debug, PartialEq, Eq, Clone, Copy)]
pub enum Lang {
    Rust,
}

/// Where the content of a buffer comes from.  Reading a file is a
/// collaborator's concern: a host that loads one hands the text over as
/// `Buffer` once a string of lines is available.
pub enum BufferOrigin {
    /// Content generated or already in memory.
    Buffer(String),
    /// An empty buffer, with zero lines.
    Empty,
}

/// How an editing operation can fail.  Failures leave the buffer unchanged.
#[derive(Debug, PartialEq, Eq, Clone, Copy)]
pub enum EditError {
    /// A supplied position names a row past the last line, or a column past
    /// the end of a line where exact bounds matter.
    OutOfBounds,
    /// The requested operation is not supported (range deletion).
    NotImplemented,
    /// The buffer has zero lines and the operation needs at least one.
    EmptyBuffer,
}

/// The text buffer, with its cursor and scroll origin.
pub struct TextBuffer {
    /// The lines of the document, in order; the row index is the line number.
    pub buffer: Vec<Vec<char>>,
    /// Whether the content is recognized source code.
    pub buffer_type: BufferType,
    /// Row and column where the cursor is located.
    pub cursor: Cursor,
    /// The (row, column) of the top-left visible cell; advisory to a
    /// renderer, independent of the cursor.
    pub view_pos: (usize, usize),
}

/// The mathematical state of a buffer: its lines and its cursor.
pub ghost struct BufModel {
    pub lines: Seq<Seq<char>>,
    pub cursor: (int, int),
}

/// The bounds invariant: the cursor lies on a line of the buffer, at a
/// column no greater than that line's length (equality is the "append"
/// position).  A buffer with zero lines keeps the cursor at the origin.
pub open spec fn model_wf(m: BufModel) -> bool {
    if m.lines.len() == 0 {
        m.cursor == (0int, 0int)
    } else {
        &&& 0 <= m.cursor.0 < m.lines.len()
        &&& 0 <= m.cursor.1 <= m.lines[m.cursor.0].len()
    }
}

/// Carries a column past the end of its row over into the following rows,
/// one line boundary counting as one column unit, until the column fits;
/// on the last row the column is clamped to the row's length.
pub open spec fn wrap_forward(lines: Seq<Seq<char>>, row: int, col: int) -> (int, int)
    recommends
        0 <= row < lines.len(),
        0 <= col,
    decreases lines.len() - row,
{
    if row >= lines.len() - 1 {
        (row, min(col, lines[row].len() as int))
    } else if col <= lines[row].len() {
        (row, col)
    } else {
        wrap_forward(lines, row + 1, col - lines[row].len() - 1)
    }
}

/// The cursor position an absolute move to `(v, h)` lands on: the row is
/// clamped to the last line, then the column wraps forward per
/// [`wrap_forward`].
pub open spec fn abs_target(lines: Seq<Seq<char>>, v: int, h: int) -> (int, int)
    recommends
        lines.len() > 0,
        0 <= v,
        0 <= h,
{
    wrap_forward(lines, min(v, lines.len() - 1), h)
}

/// The cursor position a relative move by `(dv, dh)` from `cur` lands on:
/// the new row is clamped to the buffer; a column that would become negative
/// wraps to the end of the previous line (or clamps to zero on the first
/// row); a non-negative column is placed by the absolute move's policy.
pub open spec fn rel_target(lines: Seq<Seq<char>>, cur: (int, int), dv: int, dh: int) -> (
    int,
    int,
)
    recommends
        lines.len() > 0,
        model_wf(BufModel { lines, cursor: cur }),
{
    let nr = min(max(cur.0 + dv, 0), lines.len() - 1);
    let tc = cur.1 + dh;
    if tc < 0 {
        if nr > 0 {
            (nr - 1, lines[nr - 1].len() as int)
        } else {
            (0int, 0int)
        }
    } else {
        wrap_forward(lines, nr, tc)
    }
}

/// The buffer state after `move_cursor_absolute(v, h)`.
pub open spec fn model_move_abs(m: BufModel, v: int, h: int) -> BufModel {
    if m.lines.len() == 0 {
        m
    } else {
        BufModel { lines: m.lines, cursor: abs_target(m.lines, v, h) }
    }
}

/// The buffer state after `move_cursor_relative(dv, dh)`.
pub open spec fn model_move_rel(m: BufModel, dv: int, dh: int) -> BufModel {
    if m.lines.len() == 0 {
        m
    } else {
        BufModel { lines: m.lines, cursor: rel_target(m.lines, m.cursor, dv, dh) }
    }
}

/// The line `l` with `ch` inserted at column `c`; a column past the end of
/// the line appends.
pub open spec fn insert_in_line(l: Seq<char>, c: int, ch: char) -> Seq<char> {
    l.insert(min(c, l.len() as int), ch)
}

/// The lines after inserting `ch` at row `r`, column `c`: a carriage return
/// splits the line at `c` into a new row `r` and the remainder at `r + 1`;
/// any other character is inserted into the line at `r`.
pub open spec fn insert_lines_at(lines: Seq<Seq<char>>, r: int, c: int, ch: char) -> Seq<
    Seq<char>,
>
    recommends
        0 <= r < lines.len(),
        0 <= c,
{
    if ch == '\r' {
        lines.update(r, lines[r].skip(c)).insert(r, lines[r].take(c))
    } else {
        lines.update(r, insert_in_line(lines[r], c, ch))
    }
}

/// Whether inserting `ch` at the position `pos` names (or at the cursor,
/// when `pos` is `None`) must fail, and with which error: a buffer with zero
/// lines takes nothing; an explicit row past the last line is out of bounds,
/// as is an explicit column past the end of the line for the carriage-return
/// split, whose bounds matter exactly.
pub open spec fn insert_err(lines: Seq<Seq<char>>, ch: char, pos: Option<(usize, usize)>) -> Option<
    EditError,
> {
    if lines.len() == 0 {
        Some(EditError::EmptyBuffer)
    } else {
        match pos {
            Some(p) => if p.0 as int >= lines.len() {
                Some(EditError::OutOfBounds)
            } else if ch == '\r' && p.1 as int > lines[p.0 as int].len() {
                Some(EditError::OutOfBounds)
            } else {
                None
            },
            None => None,
        }
    }
}

/// The buffer state after inserting `ch` at the cursor: a carriage return
/// splits the line and moves the cursor to the start of the next row; any
/// other character lands at the cursor's column, which advances by one.
/// A buffer with zero lines is left unchanged.
pub open spec fn model_insert(m: BufModel, ch: char) -> BufModel {
    if m.lines.len() == 0 {
        m
    } else {
        BufModel {
            lines: insert_lines_at(m.lines, m.cursor.0, m.cursor.1, ch),
            cursor: if ch == '\r' {
                (m.cursor.0 + 1, 0int)
            } else {
                (m.cursor.0, m.cursor.1 + 1)
            },
        }
    }
}

/// The buffer state after a single backward deletion at the cursor: at the
/// origin nothing happens; at column zero the line merges onto the end of
/// the previous one, which the row count drops by one; otherwise the
/// character before the cursor leaves the line.  The cursor moves one
/// position backward either way.
pub open spec fn model_delete(m: BufModel) -> BufModel {
    if m.cursor == (0int, 0int) {
        m
    } else if m.cursor.1 == 0 {
        BufModel {
            lines: m.lines.update(m.cursor.0 - 1, m.lines[m.cursor.0 - 1] + m.lines[m.cursor.0])
                .remove(m.cursor.0),
            cursor: (m.cursor.0 - 1, m.lines[m.cursor.0 - 1].len() as int),
        }
    } else {
        BufModel {
            lines: m.lines.update(m.cursor.0, m.lines[m.cursor.0].remove(m.cursor.1 - 1)),
            cursor: (m.cursor.0, m.cursor.1 - 1),
        }
    }
}

/// The requested initial cursor clamped into the buffer: the row to the
/// last line, the column to that line's length.
pub open spec fn clamp_pos(lines: Seq<Seq<char>>, r: int, c: int) -> (int, int) {
    if lines.len() == 0 {
        (0int, 0int)
    } else {
        let rr = min(r, lines.len() - 1);
        (rr, min(c, lines[rr].len() as int))
    }
}

impl TextBuffer {
    /// The lines of the buffer as a sequence of character sequences.
    pub open spec fn lines(&self) -> Seq<Seq<char>> {
        lines_view(self.buffer@)
    }

    /// The mathematical state of the buffer.
    pub open spec fn model(&self) -> BufModel {
        BufModel {
            lines: self.lines(),
            cursor: (self.cursor.text_pos.0 as int, self.cursor.text_pos.1 as int),
        }
    }

    /// The bounds invariant, established by construction and preserved by
    /// every operation.
    pub open spec fn wf(&self) -> bool {
        model_wf(self.model())
    }

    /// Builds a buffer from its content origin, with an optional initial
    /// cursor and view origin.  In-memory content is split into lines per
    /// [`lines_of`]; an empty origin has zero lines.  A requested cursor is
    /// clamped into the loaded content per [`clamp_pos`]; the view origin is
    /// taken as given, being advisory only.
    pub fn new(
        origin: BufferOrigin,
        cursor: Option<(usize, usize)>,
        view_pos: Option<(usize, usize)>,
    ) -> (buf: TextBuffer)
        ensures
            buf.wf(),
            buf.buffer_type == BufferType::Clear,
            buf.lines() == match origin {
                BufferOrigin::Buffer(s) => lines_of(s@),
                BufferOrigin::Empty => Seq::<Seq<char>>::empty(),
            },
            ({
                let req = match cursor {
                    Some(p) => (p.0 as int, p.1 as int),
                    None => (0int, 0int),
                };
                let cp = clamp_pos(buf.lines(), req.0, req.1);
                buf.cursor.text_pos.0 == cp.0 && buf.cursor.text_pos.1 == cp.1
            }),
            buf.view_pos == match view_pos {
                Some(v) => v,
                None => (0usize, 0usize),
            },
    {
        let lines: Vec<Vec<char>> = match origin {
            BufferOrigin::Buffer(s) => split_lines(s.as_str()),
            BufferOrigin::Empty => {
                let empty_lines: Vec<Vec<char>> = Vec::new();
                assert(lines_view(empty_lines@) =~= Seq::<Seq<char>>::empty());
                empty_lines
            },
        };
        let mut buf = TextBuffer {
            buffer: lines,
            buffer_type: BufferType::Clear,
            cursor: Cursor::new(),
            view_pos: (0, 0),
        };
        if let Some(p) = cursor {
            if buf.buffer.len() > 0 {
                let last = buf.buffer.len() - 1;
                let rr: usize = if p.0 > last {
                    last
                } else {
                    p.0
                };
                let ll = buf.buffer[rr].len();
                let cc: usize = if p.1 > ll {
                    ll
                } else {
                    p.1
                };
                buf.cursor.text_pos = (rr, cc);
            }
        }
        if let Some(v) = view_pos {
            buf.view_pos = v;
        }
        buf
    }

    /// Places the cursor by the shared clamping and overflow policy: from
    /// `(row, col)` the column wraps forward row by row per [`wrap_forward`].
    /// Both public moves delegate final placement here.
    fn go_to(&mut self, row: usize, col: u128)
        requires
            old(self).wf(),
            old(self).lines().len() > 0,
            (row as int) < old(self).lines().len(),
        ensures
            final(self).buffer == old(self).buffer,
            final(self).buffer_type == old(self).buffer_type,
            final(self).view_pos == old(self).view_pos,
            final(self).wf(),
            ({
                let rc = wrap_forward(old(self).lines(), row as int, col as int);
                final(self).cursor.text_pos.0 == rc.0 && final(self).cursor.text_pos.1 == rc.1
            }),
    {
        let last = self.buffer.len() - 1;
        let mut r = row;
        let mut c = col;
        while c > (self.buffer[r].len() as u128) && r < last
            invariant
                *self == *old(self),
                last == self.buffer@.len() - 1,
                0 <= r < self.buffer@.len(),
                0 <= c,
                wrap_forward(self.lines(), r as int, c as int) == wrap_forward(
                    old(self).lines(),
                    row as int,
                    col as int,
                ),
            decreases self.buffer@.len() - r,
        {
            let ll = self.buffer[r].len();
            c = c - (ll as u128) - 1;
            r = r + 1;
        }
        let ll = self.buffer[r].len();
        let c_final: usize = if c > (ll as u128) {
            ll
        } else {
            c as usize
        };
        self.cursor.text_pos = (r, c_final);
    }

    /// Sets the cursor to an absolute row and column, or to the end of the
    /// line or buffer.  The cursor is first moved vertically, then
    /// horizontally; a horizontal move past the end of a line continues on
    /// the next line, except at the end of the buffer, where it stops.
    /// A buffer with zero lines is left unchanged.
    pub fn move_cursor_absolute(&mut self, vertical: usize, horizontal: usize)
        requires
            old(self).wf(),
        ensures
            final(self).wf(),
            final(self).buffer_type == old(self).buffer_type,
            final(self).view_pos == old(self).view_pos,
            final(self).model() == model_move_abs(
                old(self).model(),
                vertical as int,
                horizontal as int,
            ),
    {
        if self.buffer.len() == 0 {
            return ;
        }
        let last = self.buffer.len() - 1;
        let r = if vertical > last {
            last
        } else {
            vertical
        };
        self.go_to(r, horizontal as u128);
    }

    /// Moves the cursor relative to its current position, clamping at the
    /// beginning and end of the buffer.  A move past either end of a line
    /// wraps: backward to the end of the previous line, forward by the
    /// absolute move's overflow policy.  A buffer with zero lines is left
    /// unchanged.
    pub fn move_cursor_relative(&mut self, vertical: i32, horizontal: i32)
        requires
            old(self).wf(),
        ensures
            final(self).wf(),
            final(self).buffer_type == old(self).buffer_type,
            final(self).view_pos == old(self).view_pos,
            final(self).model() == model_move_rel(
                old(self).model(),
                vertical as int,
                horizontal as int,
            ),
    {
        if self.buffer.len() == 0 {
            return ;
        }
        let len = self.buffer.len();
        let t0: i128 = (self.cursor.text_pos.0 as i128) + (vertical as i128);
        let t1: i128 = if t0 < 0 {
            0
        } else {
            t0
        };
        let nr: usize = if t1 > ((len - 1) as i128) {
            len - 1
        } else {
            t1 as usize
        };
        let tc: i128 = (self.cursor.text_pos.1 as i128) + (horizontal as i128);
        if tc < 0 {
            if nr > 0 {
                let c = self.buffer[nr - 1].len();
                self.go_to(nr - 1, c as u128);
            } else {
                self.go_to(0, 0);
            }
        } else {
            self.go_to(nr, tc as u128);
        }
    }

    /// Clamps the cursor's column to the length of its line, repairing the
    /// bounds invariant after an edit elsewhere shortened that line.
    fn fix_cursor_col(&mut self)
        requires
            old(self).lines().len() > 0,
            (old(self).cursor.text_pos.0 as int) < old(self).lines().len(),
        ensures
            final(self).buffer == old(self).buffer,
            final(self).buffer_type == old(self).buffer_type,
            final(self).view_pos == old(self).view_pos,
            final(self).cursor.text_pos.0 == old(self).cursor.text_pos.0,
            final(self).cursor.text_pos.1 as int == min(
                old(self).cursor.text_pos.1 as int,
                old(self).lines()[old(self).cursor.text_pos.0 as int].len() as int,
            ),
    {
        let r = self.cursor.text_pos.0;
        let ll = self.buffer[r].len();
        if self.cursor.text_pos.1 > ll {
            self.cursor.text_pos = (r, ll);
        }
    }

    /// Inserts `ch` at the cursor, or at `pos` (as `(row, column)`) if given.
    /// A carriage return is a structural command, not literal text: it splits
    /// the target line at the target column.  Without an explicit position
    /// the cursor advances (to the start of the next row after a split, one
    /// column to the right otherwise); with one, the cursor keeps its place,
    /// its column clamped back into its possibly shortened line.  Failures
    /// per [`insert_err`] leave the buffer unchanged.
    pub fn insert(&mut self, ch: char, pos: Option<(usize, usize)>) -> (res: Result<
        (),
        EditError,
    >)
        requires
            old(self).wf(),
        ensures
            final(self).wf(),
            final(self).buffer_type == old(self).buffer_type,
            final(self).view_pos == old(self).view_pos,
            match insert_err(old(self).lines(), ch, pos) {
                Some(e) => res == Err::<(), EditError>(e) && *final(self) == *old(self),
                None => res == Ok::<(), EditError>(()) && match pos {
                    None => final(self).model() == model_insert(old(self).model(), ch),
                    Some(p) => {
                        &&& final(self).lines() == insert_lines_at(
                            old(self).lines(),
                            p.0 as int,
                            p.1 as int,
                            ch,
                        )
                        &&& final(self).cursor.text_pos.0 == old(self).cursor.text_pos.0
                        &&& final(self).cursor.text_pos.1 as int == min(
                            old(self).cursor.text_pos.1 as int,
                            final(self).lines()[old(self).cursor.text_pos.0 as int].len() as int,
                        )
                    },
                },
            },
    {
        if self.buffer.len() == 0 {
            return Err(EditError::EmptyBuffer);
        }
        let mut row: usize = self.cursor.text_pos.0;
        let mut col: usize = self.cursor.text_pos.1;
        let explicit = pos.is_some();
        if let Some(p) = pos {
            if p.0 >= self.buffer.len() {
                return Err(EditError::OutOfBounds);
            }
            row = p.0;
            col = p.1;
        }
        let ghost lines0 = self.lines();
        if ch == '\r' {
            if col > self.buffer[row].len() {
                return Err(EditError::OutOfBounds);
            }
            let mut line = self.buffer.remove(row);
            let right = line.split_off(col);
            self.buffer.insert(row, right);
            self.buffer.insert(row, line);
            proof {
                assert(self.lines() =~= insert_lines_at(lines0, row as int, col as int, ch));
            }
            if !explicit {
                self.cursor.text_pos = (row + 1, 0);
            } else {
                self.fix_cursor_col();
            }
        } else {
            let mut line = self.buffer.remove(row);
            let c2: usize = if col <= line.len() {
                col
            } else {
                line.len()
            };
            line.insert(c2, ch);
            // reading the grown length as a `usize` witnesses that the
            // advanced cursor column fits the machine word
            let grown = line.len();
            assert(!explicit ==> col < grown);
            self.buffer.insert(row, line);
            proof {
                assert(self.lines() =~= insert_lines_at(lines0, row as int, col as int, ch));
            }
            if !explicit {
                self.cursor.text_pos = (row, col + 1);
            } else {
                self.fix_cursor_col();
            }
        }
        Ok(())
    }

    /// Deletes a single character backward from the cursor.  At the buffer
    /// origin this is a no-op; at column zero the line merges onto the end
    /// of the previous line; otherwise the character before the cursor
    /// leaves the line.  See [`model_delete`].  Range deletion (a `Some`
    /// argument) is unsupported and reports so without touching the buffer.
    pub fn delete(&mut self, start: Option<(usize, usize)>, end: Option<(usize, usize)>) -> (res:
        Result<(), EditError>)
        requires
            old(self).wf(),
        ensures
            final(self).wf(),
            final(self).buffer_type == old(self).buffer_type,
            final(self).view_pos == old(self).view_pos,
            start is Some || end is Some ==> res == Err::<(), EditError>(EditError::NotImplemented)
                && *final(self) == *old(self),
            start is None && end is None ==> res == Ok::<(), EditError>(()) && final(self).model()
                == model_delete(old(self).model()),
    {
        if start.is_some() || end.is_some() {
            return Err(EditError::NotImplemented);
        }
        let row: usize = self.cursor.text_pos.0;
        let col: usize = self.cursor.text_pos.1;
        if row == 0 && col == 0 {
            return Ok(());
        }
        let ghost lines0 = self.lines();
        self.move_cursor_relative(0, -1);
        if col != 0 {
            let mut line = self.buffer.remove(row);
            line.remove(col - 1);
            self.buffer.insert(row, line);
            proof {
                assert(self.lines() =~= model_delete(old(self).model()).lines);
            }
        } else {
            let mut tail = self.buffer.remove(row);
            let mut prev = self.buffer.remove(row - 1);
            prev.append(&mut tail);
            self.buffer.insert(row - 1, prev);
            proof {
                assert(self.lines() =~= model_delete(old(self).model()).lines);
            }
        }
        Ok(())
    }
}

} // verus!
