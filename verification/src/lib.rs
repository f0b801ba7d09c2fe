//! A verified engine for the game of tic-tac-toe.
//!
//! The engine is pure state-transition logic over a [`game::Game`] value:
//! move validation, win and draw detection, turn alternation, and the
//! plain-value wire and display forms of a game. Persistence and request
//! handling live outside the library and only load, pass in, and store
//! these values.

pub mod board;
pub mod display;
pub mod game;
pub mod laws;
pub mod response;
