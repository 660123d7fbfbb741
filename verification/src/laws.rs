//! Laws of the editing operations, stated over the buffer model and proved.
//!
//! The bounds invariant itself — after any operation the cursor satisfies
//! `0 <= row < lines.len()` and `0 <= col <= lines[row].len()` — is stated
//! as the `wf` clause in the `ensures` of every operation of
//! [`crate::buffer::TextBuffer`]; the laws here relate the operations to
//! one another.

use vstd::prelude::*;
use crate::buffer::BufModel;
use crate::buffer::insert_in_line;
use crate::buffer::model_delete;
use crate::buffer::model_insert;
use crate::buffer::model_move_rel;
use crate::buffer::model_wf;

verus! {

/// Inserting a character other than a carriage return at the cursor and
/// then deleting backward at the resulting cursor restores the buffer
/// exactly: the lines and the cursor.
pub proof fn lemma_insert_then_delete(m: BufModel, ch: char)
    requires
        model_wf(m),
        m.lines.len() > 0,
        ch != '\r',
    ensures
        model_delete(model_insert(m, ch)) == m,
{
    let r = m.cursor.0;
    let c = m.cursor.1;
    let line = m.lines[r];
    let m1 = model_insert(m, ch);
    assert(insert_in_line(line, c, ch) == line.insert(c, ch));
    assert(m1.cursor == (r, c + 1));
    let m2 = model_delete(m1);
    assert(line.insert(c, ch).remove(c) =~= line);
    assert(m2.lines =~= m.lines);
    assert(m2.cursor == m.cursor);
}

/// Inserting a carriage return at column `k` of the line under the cursor
/// splits it into two adjacent lines whose concatenation, in order, is the
/// original line, with lengths `k` and `n - k`; the cursor lands at the
/// start of the second piece.
pub proof fn lemma_split_round_trip(m: BufModel)
    requires
        model_wf(m),
        m.lines.len() > 0,
    ensures
        ({
            let m1 = model_insert(m, '\r');
            let r = m.cursor.0;
            let k = m.cursor.1;
            &&& m1.lines.len() == m.lines.len() + 1
            &&& m1.lines[r] + m1.lines[r + 1] == m.lines[r]
            &&& m1.lines[r].len() == k
            &&& m1.lines[r + 1].len() == m.lines[r].len() - k
            &&& m1.cursor == (r + 1, 0int)
        }),
{
    let r = m.cursor.0;
    let k = m.cursor.1;
    let line = m.lines[r];
    let m1 = model_insert(m, '\r');
    assert(m1.lines[r] == line.take(k));
    assert(m1.lines[r + 1] == line.skip(k));
    assert(line.take(k) + line.skip(k) =~= line);
}

/// A relative move whose row delta reaches to or past the first row and
/// whose column delta reaches past the start of the line clamps the cursor
/// to the origin `(0, 0)`, from any position.
pub proof fn lemma_large_negative_move(m: BufModel, dv: int, dh: int)
    requires
        model_wf(m),
        m.cursor.0 + dv <= 0,
        m.cursor.1 + dh < 0,
    ensures
        model_move_rel(m, dv, dh).cursor == (0int, 0int),
{
}

/// Deleting backward at the buffer origin changes nothing: neither the
/// lines nor the cursor.
pub proof fn lemma_delete_at_origin(m: BufModel)
    requires
        m.cursor == (0int, 0int),
    ensures
        model_delete(m) == m,
{
}

/// Deleting backward at column zero of a later row merges that row onto
/// the end of the previous one: the row count drops by one, the previous
/// line becomes the concatenation of the two, and the cursor lands at the
/// join, the end of the old previous line.
pub proof fn lemma_delete_merges(m: BufModel)
    requires
        model_wf(m),
        m.cursor.1 == 0,
        m.cursor.0 > 0,
    ensures
        ({
            let m1 = model_delete(m);
            let r = m.cursor.0;
            &&& m1.lines.len() == m.lines.len() - 1
            &&& m1.lines[r - 1] == m.lines[r - 1] + m.lines[r]
            &&& m1.cursor == (r - 1, m.lines[r - 1].len() as int)
        }),
{
}

} // verus!
