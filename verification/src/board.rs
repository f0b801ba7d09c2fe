//! The board: nine cells in row-major order, and the eight winning triples.

use vstd::prelude::*;

verus! {

/// One cell of the 3-by-3 board: empty, or holding a player's mark.
#[derive(Clone, Copy, PartialEq, Eq, Structural, Debug)]
pub enum Cell {
    Empty,
    X,
    O,
}

/// One of the two players, named by the mark they place.
#[derive(Clone, Copy, PartialEq, Eq, Structural, Debug)]
pub enum Player {
    X,
    O,
}

/// The mark a player leaves in a cell.
pub open spec fn mark_of(p: Player) -> Cell {
    match p {
        Player::X => Cell::X,
        Player::O => Cell::O,
    }
}

/// The opponent of a player.
pub open spec fn other_player(p: Player) -> Player {
    match p {
        Player::X => Player::O,
        Player::O => Player::X,
    }
}

/// The board of a game that was just created: nine empty cells.
pub open spec fn empty_board() -> Seq<Cell> {
    Seq::new(9, |i: int| Cell::Empty)
}

/// Every cell of the board holds a mark.
pub open spec fn board_full(b: Seq<Cell>) -> bool {
    forall|i: int| 0 <= i < b.len() ==> b[i] != Cell::Empty
}

/// The table of the eight winning triples, in scan order: the three rows
/// top to bottom, the three columns left to right, then the two diagonals.
pub open spec fn triple(t: int) -> (int, int, int) {
    if t == 0 {
        (0, 1, 2)
    } else if t == 1 {
        (3, 4, 5)
    } else if t == 2 {
        (6, 7, 8)
    } else if t == 3 {
        (0, 3, 6)
    } else if t == 4 {
        (1, 4, 7)
    } else if t == 5 {
        (2, 5, 8)
    } else if t == 6 {
        (0, 4, 8)
    } else {
        (2, 4, 6)
    }
}

/// Triple `t` is won: its three cells are occupied and mutually equal.
pub open spec fn triple_won(b: Seq<Cell>, t: int) -> bool {
    &&& b[triple(t).0] != Cell::Empty
    &&& b[triple(t).0] == b[triple(t).1]
    &&& b[triple(t).1] == b[triple(t).2]
}

/// The player whose marks fill triple `t`, assuming it is won.
pub open spec fn triple_winner(b: Seq<Cell>, t: int) -> Player {
    if b[triple(t).0] == Cell::X {
        Player::X
    } else {
        Player::O
    }
}

/// The winner found by scanning the triples from `t` upward: the mark of
/// the first won triple, or `None` when none of the rest is won.
pub open spec fn winner_from(b: Seq<Cell>, t: int) -> Option<Player>
    decreases 8 - t,
{
    if t < 0 || t >= 8 {
        None
    } else if triple_won(b, t) {
        Some(triple_winner(b, t))
    } else {
        winner_from(b, t + 1)
    }
}

/// The winner of the board: the mark of the first won triple in scan order.
pub open spec fn spec_winner(b: Seq<Cell>) -> Option<Player> {
    winner_from(b, 0)
}

/// The board is a draw: full, with no winner.
pub open spec fn spec_is_draw(b: Seq<Cell>) -> bool {
    spec_winner(b) is None && board_full(b)
}

} // verus!
