//! The human-readable grid form of a board.

use vstd::prelude::*;
use crate::board::Cell;
use crate::game::Game;

verus! {

/// The glyph shown for one cell: the mark, or a dot for an empty cell.
pub open spec fn glyph(c: Cell) -> char {
    match c {
        Cell::Empty => '.',
        Cell::X => 'X',
        Cell::O => 'O',
    }
}

/// One display row: three glyphs, each padded with a space on the left,
/// separated by bars.
pub open spec fn row_chars(a: Cell, b: Cell, c: Cell) -> Seq<char> {
    seq![' ', glyph(a), ' ', '|', ' ', glyph(b), ' ', '|', ' ', glyph(c)]
}

/// The separator between display rows: eleven dashes on a line of their own.
pub open spec fn row_sep() -> Seq<char> {
    seq!['\n', '-', '-', '-', '-', '-', '-', '-', '-', '-', '-', '-', '\n']
}

/// The full textual grid for a board: the three rows top to bottom, with a
/// separator line between consecutive rows.
pub open spec fn display_of(b: Seq<Cell>) -> Seq<char> {
    row_chars(b[0], b[1], b[2]) + row_sep() + row_chars(b[3], b[4], b[5]) + row_sep()
        + row_chars(b[6], b[7], b[8])
}

/// The glyph of one cell as a string slice.
fn glyph_str(c: Cell) -> (r: &'static str)
    ensures
        r@ == seq![glyph(c)],
{
    match c {
        Cell::Empty => {
            let s = ".";
            proof {
                reveal_strlit(".");
                assert(s@ =~= seq![glyph(c)]);
            }
            s
        },
        Cell::X => {
            let s = "X";
            proof {
                reveal_strlit("X");
                assert(s@ =~= seq![glyph(c)]);
            }
            s
        },
        Cell::O => {
            let s = "O";
            proof {
                reveal_strlit("O");
                assert(s@ =~= seq![glyph(c)]);
            }
            s
        },
    }
}

/// Append one display row for the three given cells to `s`.
fn append_row(s: &mut String, a: Cell, b: Cell, c: Cell)
    ensures
        final(s)@ == old(s)@ + row_chars(a, b, c),
{
    s.append(" ");
    s.append(glyph_str(a));
    s.append(" | ");
    s.append(glyph_str(b));
    s.append(" | ");
    s.append(glyph_str(c));
    proof {
        reveal_strlit(" ");
        reveal_strlit(" | ");
        assert(s@ =~= old(s)@ + row_chars(a, b, c));
    }
}

impl Game {
    /// The fixed 3-row textual grid for this game's board: marks where
    /// cells are occupied, a dot where they are empty, with separator
    /// lines between the rows. A pure formatting query; the game is not
    /// changed and no decision is taken from the result.
    pub fn get_board_display(&self) -> (r: String)
        requires
            self.wf(),
        ensures
            r@ == display_of(self.board@),
    {
        let mut s = String::new();
        append_row(&mut s, self.board[0], self.board[1], self.board[2]);
        s.append("\n-----------\n");
        append_row(&mut s, self.board[3], self.board[4], self.board[5]);
        s.append("\n-----------\n");
        append_row(&mut s, self.board[6], self.board[7], self.board[8]);
        proof {
            reveal_strlit("\n-----------\n");
            assert(s@ =~= display_of(self.board@));
        }
        s
    }
}

} // verus!
