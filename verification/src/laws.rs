//! Laws of the engine that relate several operations: what the winner
//! scan finds, when a move is accepted, and which status a board earns.

use vstd::prelude::*;
use crate::board::{
    Cell, Player, board_full, empty_board, mark_of, spec_winner, triple, triple_winner,
    triple_won, winner_from,
};
use crate::game::{Game, MoveError, Status, status_of_board};

verus! {

/// Scanning from `s` finds a winner whenever some triple at or past `s` is won.
proof fn lemma_winner_from_some(b: Seq<Cell>, s: int, t: int)
    requires
        0 <= s <= t < 8,
        triple_won(b, t),
    ensures
        winner_from(b, s) is Some,
    decreases t - s,
{
    if s < t && !triple_won(b, s) {
        lemma_winner_from_some(b, s + 1, t);
    }
}

/// Scanning from `s` finds no winner when no triple at or past `s` is won.
proof fn lemma_winner_from_none(b: Seq<Cell>, s: int)
    requires
        0 <= s <= 8,
        forall|t: int| s <= t < 8 ==> !triple_won(b, t),
    ensures
        winner_from(b, s) is None,
    decreases 8 - s,
{
    if s < 8 {
        lemma_winner_from_none(b, s + 1);
    }
}

/// Whatever the scan from `s` returns was read off some won triple.
proof fn lemma_winner_from_found(b: Seq<Cell>, s: int)
    requires
        0 <= s <= 8,
        winner_from(b, s) is Some,
    ensures
        exists|t: int|
            s <= t < 8 && triple_won(b, t) && winner_from(b, s) == Some(triple_winner(b, t)),
    decreases 8 - s,
{
    if s < 8 && !triple_won(b, s) {
        lemma_winner_from_found(b, s + 1);
    }
}

/// The board has a winner exactly when some triple is won.
pub proof fn lemma_winner_iff_triple_won(b: Seq<Cell>)
    ensures
        spec_winner(b) is Some <==> exists|t: int| 0 <= t < 8 && triple_won(b, t),
{
    if exists|t: int| 0 <= t < 8 && triple_won(b, t) {
        let t = choose|t: int| 0 <= t < 8 && triple_won(b, t);
        lemma_winner_from_some(b, 0, t);
    }
    if spec_winner(b) is Some {
        lemma_winner_from_found(b, 0);
    }
}

/// On an in-progress game with an all-empty board, a move at any position
/// 0 through 8 is accepted, and the resulting board holds the mover's
/// mark there and nothing anywhere else.
pub proof fn lemma_move_on_empty_board(g: Game, position: int)
    requires
        g.wf(),
        g.status == Status::InProgress,
        g.board@ == empty_board(),
        0 <= position <= 8,
    ensures
        g.move_error(position) is None,
        g.board_after(position)[position] == mark_of(g.current_player),
        g.board_after(position)[position] != Cell::Empty,
        forall|j: int| 0 <= j < 9 && j != position ==> g.board_after(position)[j] == Cell::Empty,
{
    assert(empty_board()[position] == Cell::Empty);
}

/// A finished game rejects every move as `GameFinished`, whatever the
/// position — valid, occupied, or out of range alike.
pub proof fn lemma_finished_game_rejects_all(g: Game, position: int)
    requires
        g.status != Status::InProgress,
    ensures
        g.move_error(position) == Some(MoveError::GameFinished),
{
}

/// On an in-progress game, a position outside 0 through 8 is always
/// rejected as `InvalidPosition`, whatever the board holds.
pub proof fn lemma_out_of_range_rejected(g: Game, position: int)
    requires
        g.status == Status::InProgress,
        !(0 <= position <= 8),
    ensures
        g.move_error(position) == Some(MoveError::InvalidPosition),
{
}

/// When one winning triple is filled with player `p`'s mark and every won
/// triple belongs to `p` — as legal alternating play guarantees — the
/// board's winner is `p` and the status it earns is `p`'s win: terminal,
/// and not a draw.
pub proof fn lemma_win_detected(b: Seq<Cell>, t: int, p: Player)
    requires
        b.len() == 9,
        0 <= t < 8,
        b[triple(t).0] == mark_of(p),
        b[triple(t).1] == mark_of(p),
        b[triple(t).2] == mark_of(p),
        forall|u: int| 0 <= u < 8 && #[trigger] triple_won(b, u) ==> triple_winner(b, u) == p,
    ensures
        spec_winner(b) == Some(p),
        status_of_board(b) == (if p == Player::X {
            Status::XWins
        } else {
            Status::OWins
        }),
        status_of_board(b) != Status::InProgress,
        status_of_board(b) != Status::Draw,
{
    assert(triple_won(b, t));
    lemma_winner_from_some(b, 0, t);
    lemma_winner_from_found(b, 0);
}

/// A full board on which no triple is won has no winner and earns the
/// draw status.
pub proof fn lemma_draw_detected(b: Seq<Cell>)
    requires
        b.len() == 9,
        board_full(b),
        forall|t: int| 0 <= t < 8 ==> !triple_won(b, t),
    ensures
        spec_winner(b) is None,
        status_of_board(b) == Status::Draw,
{
    lemma_winner_from_none(b, 0);
}

} // verus!
