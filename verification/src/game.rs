//! The game entity and its single mutating operation, `make_move`.

use vstd::prelude::*;
use crate::board::{
    Cell, Player, board_full, empty_board, mark_of, other_player, spec_is_draw, spec_winner,
    triple, winner_from,
};

verus! {

/// Where the game stands: still being played, or one of the three
/// terminal outcomes. A terminal status never changes again.
#[derive(Clone, Copy, PartialEq, Eq, Structural, Debug)]
pub enum Status {
    InProgress,
    XWins,
    OWins,
    Draw,
}

/// Why a move was rejected. Every rejection leaves the game unchanged.
#[derive(Clone, Copy, PartialEq, Eq, Structural, Debug)]
pub enum MoveError {
    GameFinished,
    InvalidPosition,
    CellOccupied,
}

/// The status a board earns on its own contents: the winner's status if a
/// triple is won, else a draw when the board is full, else still in progress.
pub open spec fn status_of_board(b: Seq<Cell>) -> Status {
    match spec_winner(b) {
        Some(Player::X) => Status::XWins,
        Some(Player::O) => Status::OWins,
        None => if board_full(b) {
            Status::Draw
        } else {
            Status::InProgress
        },
    }
}

/// One game of tic-tac-toe. The board has exactly nine cells, row-major:
/// positions 0,1,2 are the top row, 3,4,5 the middle, 6,7,8 the bottom.
/// Timestamps are plain values the caller supplies; the engine never reads
/// a clock.
#[derive(Clone, Debug)]
pub struct Game {
    pub id: i32,
    pub board: Vec<Cell>,
    pub current_player: Player,
    pub status: Status,
    pub created_at: i64,
    pub updated_at: i64,
}

impl Game {
    /// The game's structural invariant: the board holds exactly nine cells.
    pub open spec fn wf(self) -> bool {
        self.board@.len() == 9
    }

    /// The error a move at `position` is rejected with, checked in this
    /// order: finished game, position out of range, cell occupied. `None`
    /// means the move is legal.
    pub open spec fn move_error(self, position: int) -> Option<MoveError> {
        if self.status != Status::InProgress {
            Some(MoveError::GameFinished)
        } else if !(0 <= position <= 8) {
            Some(MoveError::InvalidPosition)
        } else if self.board@[position] != Cell::Empty {
            Some(MoveError::CellOccupied)
        } else {
            None
        }
    }

    /// The board after the current player marks `position`.
    pub open spec fn board_after(self, position: int) -> Seq<Cell> {
        self.board@.update(position, mark_of(self.current_player))
    }

    /// A fresh game: nine empty cells, X to move, in progress, both
    /// timestamps set to the creation time the caller passes in.
    pub fn create(id: i32, created_at: i64) -> (g: Game)
        ensures
            g.wf(),
            g.id == id,
            g.board@ == empty_board(),
            g.current_player == Player::X,
            g.status == Status::InProgress,
            g.created_at == created_at,
            g.updated_at == created_at,
    {
        let mut board: Vec<Cell> = Vec::new();
        let mut i: usize = 0;
        while i < 9
            invariant
                i <= 9,
                board@.len() == i as int,
                forall|j: int| 0 <= j < i ==> board@[j] == Cell::Empty,
            decreases 9 - i,
        {
            board.push(Cell::Empty);
            i = i + 1;
        }
        proof {
            assert(board@ =~= empty_board());
        }
        Game {
            id,
            board,
            current_player: Player::X,
            status: Status::InProgress,
            created_at,
            updated_at: created_at,
        }
    }

    /// The three board indices of winning triple `t`, in scan order.
    fn winning_combo(t: usize) -> (r: (usize, usize, usize))
        requires
            t < 8,
        ensures
            (r.0 as int, r.1 as int, r.2 as int) == triple(t as int),
            r.0 < 9,
            r.1 < 9,
            r.2 < 9,
    {
        if t == 0 {
            (0, 1, 2)
        } else if t == 1 {
            (3, 4, 5)
        } else if t == 2 {
            (6, 7, 8)
        } else if t == 3 {
            (0, 3, 6)
        } else if t == 4 {
            (1, 4, 7)
        } else if t == 5 {
            (2, 5, 8)
        } else if t == 6 {
            (0, 4, 8)
        } else {
            (2, 4, 6)
        }
    }

    /// Scan the eight triples in their fixed order and return the mark of
    /// the first one whose cells are occupied and mutually equal.
    pub fn check_winner(&self) -> (r: Option<Player>)
        requires
            self.wf(),
        ensures
            r == spec_winner(self.board@),
    {
        let mut t: usize = 0;
        while t < 8
            invariant
                self.wf(),
                t <= 8,
                spec_winner(self.board@) == winner_from(self.board@, t as int),
            decreases 8 - t,
        {
            let (i, j, k): (usize, usize, usize) = Self::winning_combo(t);
            let a = self.board[i];
            let b = self.board[j];
            let c = self.board[k];
            if a != Cell::Empty && a == b && b == c {
                let winner = if a == Cell::X {
                    Player::X
                } else {
                    Player::O
                };
                return Some(winner);
            }
            t = t + 1;
        }
        None
    }

    /// Every cell of the board holds a mark.
    fn board_is_full(&self) -> (r: bool)
        requires
            self.wf(),
        ensures
            r == board_full(self.board@),
    {
        let mut i: usize = 0;
        while i < 9
            invariant
                self.wf(),
                i <= 9,
                forall|j: int| 0 <= j < i ==> self.board@[j] != Cell::Empty,
            decreases 9 - i,
        {
            if self.board[i] == Cell::Empty {
                return false;
            }
            i = i + 1;
        }
        true
    }

    /// The board is a draw: no winner, and every cell occupied. A pure
    /// query; the game is not changed.
    pub fn is_draw(&self) -> (r: bool)
        requires
            self.wf(),
        ensures
            r == spec_is_draw(self.board@),
    {
        self.check_winner().is_none() && self.board_is_full()
    }

    /// Apply one move for the current player at `position`.
    ///
    /// A rejected move reports the first failing check and leaves the game
    /// exactly as it was. An accepted move writes the current player's
    /// mark, re-derives the status from the new board (winner first, then
    /// draw), and passes the turn only when the game stays in progress.
    /// The identity and timestamp fields are never touched.
    pub fn make_move(&mut self, position: usize) -> (r: Result<(), MoveError>)
        requires
            old(self).wf(),
        ensures
            final(self).wf(),
            final(self).id == old(self).id,
            final(self).created_at == old(self).created_at,
            final(self).updated_at == old(self).updated_at,
            r is Ok <==> old(self).move_error(position as int) is None,
            (r matches Err(e) ==> old(self).move_error(position as int) == Some(e)
                && *final(self) == *old(self)),
            r is Ok ==> {
                &&& final(self).board@ == old(self).board_after(position as int)
                &&& final(self).status == status_of_board(final(self).board@)
                &&& final(self).current_player == (
                    if status_of_board(final(self).board@) == Status::InProgress {
                        other_player(old(self).current_player)
                    } else {
                        old(self).current_player
                    })
            },
    {
        if self.status != Status::InProgress {
            return Err(MoveError::GameFinished);
        }
        if position > 8 {
            return Err(MoveError::InvalidPosition);
        }
        if self.board[position] != Cell::Empty {
            return Err(MoveError::CellOccupied);
        }

        let mark = match self.current_player {
            Player::X => Cell::X,
            Player::O => Cell::O,
        };
        self.board.set(position, mark);

        match self.check_winner() {
            Some(Player::X) => {
                self.status = Status::XWins;
            },
            Some(Player::O) => {
                self.status = Status::OWins;
            },
            None => {
                if self.board_is_full() {
                    self.status = Status::Draw;
                } else {
                    self.current_player = match self.current_player {
                        Player::X => Player::O,
                        Player::O => Player::X,
                    };
                }
            },
        }
        Ok(())
    }
}

} // verus!
