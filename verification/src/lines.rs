use vstd::prelude::*;

use crate::search::{find_from, spec_find};

verus! {

/// One line of a text, the piece between position `pos` and the line feed at
/// position `i`: a carriage return directly before the line feed belongs to
/// the line ending and is dropped with it.
pub open spec fn line_piece(s: Seq<char>, pos: int, i: int) -> Seq<char>
    recommends
        0 <= pos <= i <= s.len(),
{
    if i > pos && s[i - 1] == '\r' {
        s.subrange(pos, i - 1)
    } else {
        s.subrange(pos, i)
    }
}

/// The lines of `s` from position `pos` on: split at each line feed, one
/// optional carriage return before it dropped with it, the final line ending
/// optional.
pub open spec fn spec_lines_from(s: Seq<char>, pos: int) -> Seq<Seq<char>>
    recommends
        0 <= pos,
    decreases s.len() - pos,
        via spec_lines_from_decreases
{
    if pos < 0 || pos >= s.len() {
        seq![]
    } else {
        match spec_find(s, seq!['\n'], pos) {
            Some(i) => seq![line_piece(s, pos, i)] + spec_lines_from(s, i + 1),
            None => seq![s.subrange(pos, s.len() as int)],
        }
    }
}

#[via_fn]
proof fn spec_lines_from_decreases(s: Seq<char>, pos: int) {
    if 0 <= pos < s.len() {
        crate::search::lemma_spec_find_is_first(s, seq!['\n'], pos);
    }
}

/// The lines of a text, as its readers stream them.
pub open spec fn spec_lines(s: Seq<char>) -> Seq<Seq<char>> {
    spec_lines_from(s, 0)
}

/// Splits a text into its lines: one per line feed, a carriage return
/// directly before a line feed dropped with it, the final line ending
/// optional, and no line at all for the empty text.
pub fn split_lines(s: &str) -> (v: Vec<String>)
    ensures
        v@.len() == spec_lines(s@).len(),
        forall|t: int| 0 <= t < v@.len() ==> v@[t]@ == spec_lines(s@)[t],
{
    let n = s.unicode_len();
    let mut v: Vec<String> = Vec::new();
    let ghost mut done: Seq<Seq<char>> = seq![];
    let mut pos: usize = 0;
    proof {
        reveal_strlit("\n");
        assert("\n"@ =~= seq!['\n']);
    }
    while pos < n
        invariant
            pos <= n,
            n == s@.len(),
            "\n"@ =~= seq!['\n'],
            done.len() == v@.len(),
            forall|t: int| 0 <= t < done.len() ==> done[t] == v@[t]@,
            spec_lines(s@) == done + spec_lines_from(s@, pos as int),
        decreases n - pos,
    {
        match find_from(s, "\n", pos) {
            Some(i) => {
                let end = if i > pos && s.get_char(i - 1) == '\r' {
                    i - 1
                } else {
                    i
                };
                let piece = s.substring_char(pos, end);
                v.push(String::from_str(piece));
                proof {
                    assert(piece@ == line_piece(s@, pos as int, i as int));
                    done = done.push(piece@);
                    assert(done + spec_lines_from(s@, i + 1) =~= (done.drop_last()
                        + spec_lines_from(s@, pos as int)));
                }
                pos = i + 1;
            },
            None => {
                let piece = s.substring_char(pos, n);
                v.push(String::from_str(piece));
                proof {
                    done = done.push(piece@);
                    assert(done + spec_lines_from(s@, n as int) =~= (done.drop_last()
                        + spec_lines_from(s@, pos as int)));
                }
                pos = n;
            },
        }
    }
    proof {
        assert(spec_lines(s@) =~= done);
    }
    v
}

} // verus!
