//! Rules engine for a two-player backgammon-like board game: the board, the
//! dice, the enumeration of legal single-step moves and their application.

pub mod board;
pub mod dice;
pub mod error;
pub mod game;
pub mod player;
pub mod position;

pub use board::{Board, Point};
pub use error::Error;
pub use dice::{Dice, Die};
pub use game::{Game, GameStatus, Move};
pub use player::Player;
pub use position::Position;
