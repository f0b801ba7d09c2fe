//! Plain-value wire forms: the response shape of a game, the error
//! message strings, and the move request payload.

use vstd::prelude::*;
use crate::board::{Cell, Player};
use crate::display::display_of;
use crate::game::{Game, MoveError, Status};

verus! {

/// The wire form of a game: marks and status as plain strings, one
/// optional string per board cell, and an optional precomputed grid.
pub struct GameResponse {
    pub id: i32,
    pub board: Vec<Option<String>>,
    pub current_player: String,
    pub status: String,
    pub created_at: i64,
    pub updated_at: i64,
    pub board_display: Option<String>,
}

/// The wire form of an error: the stable client-facing message.
pub struct ErrorResponse {
    pub error: String,
}

/// A move request from a client: the board position to mark.
pub struct MoveRequest {
    pub position: usize,
}

/// The mark string of a player.
pub open spec fn player_chars(p: Player) -> Seq<char> {
    match p {
        Player::X => "X"@,
        Player::O => "O"@,
    }
}

/// The status string of a game.
pub open spec fn status_chars(s: Status) -> Seq<char> {
    match s {
        Status::InProgress => "in_progress"@,
        Status::XWins => "x_wins"@,
        Status::OWins => "o_wins"@,
        Status::Draw => "draw"@,
    }
}

/// The wire form of one cell: absent when empty, else the mark string.
pub open spec fn cell_chars(c: Cell) -> Option<Seq<char>> {
    match c {
        Cell::Empty => None,
        Cell::X => Some("X"@),
        Cell::O => Some("O"@),
    }
}

/// `o` is the wire form of cell `c`.
pub open spec fn cell_repr(c: Cell, o: Option<String>) -> bool {
    match o {
        None => c == Cell::Empty,
        Some(s) => cell_chars(c) == Some(s@),
    }
}

/// The stable message of each rejected-move error.
pub open spec fn error_chars(e: MoveError) -> Seq<char> {
    match e {
        MoveError::GameFinished => "Game is already finished"@,
        MoveError::InvalidPosition => "Invalid position. Must be 0-8"@,
        MoveError::CellOccupied => "Position already occupied"@,
    }
}

impl Player {
    /// The mark string of this player.
    pub fn mark_string(&self) -> (r: String)
        ensures
            r@ == player_chars(*self),
    {
        match self {
            Player::X => String::from_str("X"),
            Player::O => String::from_str("O"),
        }
    }
}

impl Status {
    /// The status string of this status.
    pub fn status_string(&self) -> (r: String)
        ensures
            r@ == status_chars(*self),
    {
        match self {
            Status::InProgress => String::from_str("in_progress"),
            Status::XWins => String::from_str("x_wins"),
            Status::OWins => String::from_str("o_wins"),
            Status::Draw => String::from_str("draw"),
        }
    }
}

impl MoveError {
    /// The stable client-facing message for this error.
    pub fn message(&self) -> (r: String)
        ensures
            r@ == error_chars(*self),
    {
        match self {
            MoveError::GameFinished => String::from_str("Game is already finished"),
            MoveError::InvalidPosition => String::from_str("Invalid position. Must be 0-8"),
            MoveError::CellOccupied => String::from_str("Position already occupied"),
        }
    }

    /// This error wrapped as an error response.
    pub fn to_error_response(&self) -> (r: ErrorResponse)
        ensures
            r.error@ == error_chars(*self),
    {
        ErrorResponse { error: self.message() }
    }
}

impl Game {
    /// The wire form of this game: each cell as an optional mark string,
    /// the player and status strings, the identity and timestamp fields
    /// unchanged, and the grid text only when `include_display` asks for
    /// it. A pure query; the game is not changed.
    pub fn to_response(&self, include_display: bool) -> (r: GameResponse)
        requires
            self.wf(),
        ensures
            r.id == self.id,
            r.created_at == self.created_at,
            r.updated_at == self.updated_at,
            r.current_player@ == player_chars(self.current_player),
            r.status@ == status_chars(self.status),
            r.board@.len() == 9,
            forall|i: int| 0 <= i < 9 ==> cell_repr(self.board@[i], #[trigger] r.board@[i]),
            include_display ==> (r.board_display matches Some(d) && d@ == display_of(
                self.board@,
            )),
            !include_display ==> r.board_display is None,
    {
        let mut board: Vec<Option<String>> = Vec::new();
        let mut i: usize = 0;
        while i < 9
            invariant
                self.wf(),
                i <= 9,
                board@.len() == i as int,
                forall|j: int| 0 <= j < i ==> cell_repr(self.board@[j], #[trigger] board@[j]),
            decreases 9 - i,
        {
            let entry: Option<String> = match self.board[i] {
                Cell::Empty => None,
                Cell::X => Some(String::from_str("X")),
                Cell::O => Some(String::from_str("O")),
            };
            board.push(entry);
            i = i + 1;
        }
        GameResponse {
            id: self.id,
            board,
            current_player: self.current_player.mark_string(),
            status: self.status.status_string(),
            created_at: self.created_at,
            updated_at: self.updated_at,
            board_display: if include_display {
                Some(self.get_board_display())
            } else {
                None
            },
        }
    }
}

} // verus!
