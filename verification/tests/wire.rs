use tictactoe::board::Player;
use tictactoe::game::{Game, MoveError, Status};
use tictactoe::response::MoveRequest;

fn played(moves: &[usize]) -> Game {
    let mut g = Game::create(3, 42);
    for &p in moves {
        g.make_move(p).expect("move in test sequence was rejected");
    }
    g
}

#[test]
fn response_of_new_game() {
    let g = Game::create(3, 42);
    let r = g.to_response(false);
    assert_eq!(r.id, 3);
    assert_eq!(r.board.len(), 9);
    assert!(r.board.iter().all(|c| c.is_none()));
    assert_eq!(r.current_player, "X");
    assert_eq!(r.status, "in_progress");
    assert_eq!(r.created_at, 42);
    assert_eq!(r.updated_at, 42);
    assert_eq!(r.board_display, None);
}

#[test]
fn response_board_holds_mark_strings() {
    let g = played(&[0, 4]);
    let r = g.to_response(false);
    assert_eq!(r.board[0].as_deref(), Some("X"));
    assert_eq!(r.board[4].as_deref(), Some("O"));
    for i in [1usize, 2, 3, 5, 6, 7, 8] {
        assert_eq!(r.board[i], None);
    }
    assert_eq!(r.current_player, "X");
}

#[test]
fn response_status_strings_cover_every_outcome() {
    assert_eq!(Status::InProgress.status_string(), "in_progress");
    assert_eq!(Status::XWins.status_string(), "x_wins");
    assert_eq!(Status::OWins.status_string(), "o_wins");
    assert_eq!(Status::Draw.status_string(), "draw");
    assert_eq!(Player::X.mark_string(), "X");
    assert_eq!(Player::O.mark_string(), "O");
}

#[test]
fn response_includes_display_only_on_request() {
    let g = played(&[0, 4]);
    let with = g.to_response(true);
    let without = g.to_response(false);
    assert!(with.board_display.is_some());
    assert_eq!(without.board_display, None);
    assert_eq!(with.board_display.unwrap(), g.get_board_display());
}

#[test]
fn display_of_new_game_is_all_dots() {
    let g = Game::create(1, 0);
    assert_eq!(
        g.get_board_display(),
        " . | . | .\n-----------\n . | . | .\n-----------\n . | . | ."
    );
}

#[test]
fn display_shows_marks_in_their_cells() {
    let g = played(&[0, 4, 8]);
    assert_eq!(
        g.get_board_display(),
        " X | . | .\n-----------\n . | O | .\n-----------\n . | . | X"
    );
}

#[test]
fn error_messages_are_stable() {
    assert_eq!(MoveError::GameFinished.message(), "Game is already finished");
    assert_eq!(
        MoveError::InvalidPosition.message(),
        "Invalid position. Must be 0-8"
    );
    assert_eq!(
        MoveError::CellOccupied.message(),
        "Position already occupied"
    );
}

#[test]
fn each_error_variant_reaches_the_wire_form() {
    let mut finished = played(&[0, 4, 1, 5, 2]);
    let e = finished.make_move(8).unwrap_err();
    assert_eq!(e, MoveError::GameFinished);
    assert_eq!(e.to_error_response().error, "Game is already finished");

    let mut fresh = Game::create(1, 0);
    let e = fresh.make_move(9).unwrap_err();
    assert_eq!(e, MoveError::InvalidPosition);
    assert_eq!(e.to_error_response().error, "Invalid position. Must be 0-8");

    let mut occupied = played(&[4]);
    let e = occupied.make_move(4).unwrap_err();
    assert_eq!(e, MoveError::CellOccupied);
    assert_eq!(e.to_error_response().error, "Position already occupied");
}

#[test]
fn move_request_position_drives_the_move() {
    let req = MoveRequest { position: 6 };
    let mut g = Game::create(1, 0);
    assert_eq!(g.make_move(req.position), Ok(()));
    let r = g.to_response(false);
    assert_eq!(r.board[6].as_deref(), Some("X"));
}
