//! Modal input handling: the decisions the editor takes on each input
//! character, as a pure transition on the mode and the buffer.
//!
//! A host's event loop feeds characters in; performing the surrounding work
//! (collecting events, redrawing) stays with the host.

use vstd::prelude::*;
use crate::buffer::BufModel;
use crate::buffer::TextBuffer;
use crate::buffer::model_delete;
use crate::buffer::model_insert;
use crate::buffer::model_move_rel;

verus! {

/// The editor's input modes.
#[derive(Debug, PartialEq, Eq, Clone, Copy)]
pub enum State {
    Normal,
    Insert,
    Visual,
    Command,
}

/// `m` after `n` insertions of `ch` at the cursor.
pub open spec fn model_insert_n(m: BufModel, ch: char, n: nat) -> BufModel
    decreases n,
{
    if n == 0 {
        m
    } else {
        model_insert(model_insert_n(m, ch, (n - 1) as nat), ch)
    }
}

/// The mode and buffer after one character of input.  In `Normal` mode,
/// `i`, `v` and `:` switch modes and `h`/`j`/`k`/`l` move the cursor; in
/// `Insert` mode, escape returns to `Normal`, backspace deletes backward,
/// tab inserts four spaces, and any other character is inserted at the
/// cursor; `Visual` and `Command` modes only return to `Normal` on escape.
pub open spec fn spec_process_input(st: State, m: BufModel, ch: char) -> (State, BufModel) {
    match st {
        State::Normal => if ch == 'i' {
            (State::Insert, m)
        } else if ch == 'v' {
            (State::Visual, m)
        } else if ch == ':' {
            (State::Command, m)
        } else if ch == 'h' {
            (st, model_move_rel(m, 0, -1))
        } else if ch == 'j' {
            (st, model_move_rel(m, 1, 0))
        } else if ch == 'k' {
            (st, model_move_rel(m, -1, 0))
        } else if ch == 'l' {
            (st, model_move_rel(m, 0, 1))
        } else {
            (st, m)
        },
        State::Insert => if ch == '\u{1b}' {
            (State::Normal, m)
        } else if ch == '\u{8}' {
            (st, model_delete(m))
        } else if ch == '\t' {
            (st, model_insert_n(m, ' ', 4))
        } else {
            (st, model_insert(m, ch))
        },
        State::Visual => if ch == '\u{1b}' {
            (State::Normal, m)
        } else {
            (st, m)
        },
        State::Command => if ch == '\u{1b}' {
            (State::Normal, m)
        } else {
            (st, m)
        },
    }
}

/// Feeds one input character to the editor, per [`spec_process_input`].
/// An insertion into a buffer with zero lines has no line to take the
/// character and leaves the buffer unchanged.
pub fn process_input(state: &mut State, buf: &mut TextBuffer, ch: char)
    requires
        old(buf).wf(),
    ensures
        final(buf).wf(),
        final(buf).buffer_type == old(buf).buffer_type,
        final(buf).view_pos == old(buf).view_pos,
        ({
            let r = spec_process_input(*old(state), old(buf).model(), ch);
            *final(state) == r.0 && final(buf).model() == r.1
        }),
{
    match *state {
        State::Normal => {
            if ch == 'i' {
                *state = State::Insert;
            } else if ch == 'v' {
                *state = State::Visual;
            } else if ch == ':' {
                *state = State::Command;
            } else if ch == 'h' {
                buf.move_cursor_relative(0, -1);
            } else if ch == 'j' {
                buf.move_cursor_relative(1, 0);
            } else if ch == 'k' {
                buf.move_cursor_relative(-1, 0);
            } else if ch == 'l' {
                buf.move_cursor_relative(0, 1);
            }
        },
        State::Insert => {
            if ch == '\u{1b}' {
                *state = State::Normal;
            } else if ch == '\u{8}' {
                let _ = buf.delete(None, None);
            } else if ch == '\t' {
                let mut i: usize = 0;
                while i < 4
                    invariant
                        i <= 4,
                        buf.wf(),
                        buf.model() == model_insert_n(old(buf).model(), ' ', i as nat),
                        buf.buffer_type == old(buf).buffer_type,
                        buf.view_pos == old(buf).view_pos,
                    decreases 4 - i,
                {
                    let _ = buf.insert(' ', None);
                    i = i + 1;
                }
            } else {
                let _ = buf.insert(ch, None);
            }
        },
        State::Visual => {
            if ch == '\u{1b}' {
                *state = State::Normal;
            }
        },
        State::Command => {
            if ch == '\u{1b}' {
                *state = State::Normal;
            }
        },
    }
}

} // verus!
