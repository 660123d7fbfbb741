//! Splitting a string into lines.
//!
//! This is the only format the editor core parses: line-oriented plain text,
//! split at `\n` or `\r\n` boundaries.  The final line ending is optional,
//! and a trailing one adds no empty line, so empty input yields zero lines.

use vstd::prelude::*;

verus! {

/// `l` with one trailing carriage return removed: the `\r` of a `\r\n`
/// line ending is not part of the line.
pub open spec fn strip_cr(l: Seq<char>) -> Seq<char> {
    if l.len() > 0 && l[l.len() - 1] == '\r' {
        l.drop_last()
    } else {
        l
    }
}

/// The lines contributed by the rest `s` of a string, when the characters
/// `cur` of the current line have already been read.  A newline ends the
/// current line; the end of input ends it too, without stripping, since a
/// final line has no line ending to strip.
pub open spec fn lines_of_rec(s: Seq<char>, cur: Seq<char>) -> Seq<Seq<char>>
    decreases s.len(),
{
    if s.len() == 0 {
        seq![cur]
    } else if s[0] == '\n' {
        if s.len() == 1 {
            seq![strip_cr(cur)]
        } else {
            seq![strip_cr(cur)] + lines_of_rec(s.drop_first(), Seq::empty())
        }
    } else {
        lines_of_rec(s.drop_first(), cur.push(s[0]))
    }
}

/// The lines of `s`, split at `\n` or `\r\n` boundaries.
pub open spec fn lines_of(s: Seq<char>) -> Seq<Seq<char>> {
    if s.len() == 0 {
        Seq::empty()
    } else {
        lines_of_rec(s, Seq::empty())
    }
}

/// The views of the lines in `v`.
pub open spec fn lines_view(v: Seq<Vec<char>>) -> Seq<Seq<char>> {
    Seq::new(v.len(), |i: int| v[i]@)
}

/// What the rest of the input adds to the output of the splitting loop:
/// the lines of `rem` continued from `cur`, except that at the end of the
/// input the current line counts only while `pending` says a character
/// read since the last newline still owes one.
spec fn tail_contrib(rem: Seq<char>, cur: Seq<char>, pending: bool) -> Seq<Seq<char>> {
    if rem.len() == 0 {
        if pending {
            seq![cur]
        } else {
            Seq::empty()
        }
    } else {
        lines_of_rec(rem, cur)
    }
}

/// Splits `s` into lines per [`lines_of`].
pub fn split_lines(s: &str) -> (out: Vec<Vec<char>>)
    ensures
        lines_view(out@) == lines_of(s@),
{
    if s.is_empty() {
        let out: Vec<Vec<char>> = Vec::new();
        assert(lines_view(out@) =~= lines_of(s@));
        return out;
    }
    let mut out: Vec<Vec<char>> = Vec::new();
    let mut cur: Vec<char> = Vec::new();
    let mut pending = false;
    proof {
        assert(s@.skip(0) =~= s@);
        assert(lines_view(out@) =~= Seq::<Seq<char>>::empty());
    }
    for c in it: s.chars()
        invariant
            it.seq() == s@,
            s@.len() > 0,
            lines_of(s@) == lines_view(out@) + tail_contrib(
                s@.skip(it.index() as int),
                cur@,
                pending,
            ),
    {
        let ghost rem = s@.skip(it.index() as int);
        let ghost out0 = out@;
        let ghost cur0 = cur@;
        proof {
            assert(rem.drop_first() =~= s@.skip(it.index() as int + 1));
        }
        if c == '\n' {
            if cur.len() > 0 && cur[cur.len() - 1] == '\r' {
                cur.pop();
            }
            proof {
                assert(cur@ =~= strip_cr(cur0));
            }
            out.push(cur);
            cur = Vec::new();
            pending = false;
            proof {
                assert(lines_view(out@) =~= lines_view(out0) + seq![strip_cr(cur0)]);
            }
        } else {
            cur.push(c);
            pending = true;
        }
    }
    proof {
        assert(s@.skip(s@.len() as int) =~= Seq::<char>::empty());
    }
    if pending {
        let ghost out0 = out@;
        let ghost cur0 = cur@;
        out.push(cur);
        proof {
            assert(lines_view(out@) =~= lines_view(out0) + seq![cur0]);
        }
    }
    proof {
        assert(lines_view(out@) =~= lines_of(s@));
    }
    out
}

} // verus!
