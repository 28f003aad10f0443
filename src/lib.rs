//! A two-player tic-tac-toe game on a 3×3 board: move validation, win and
//! draw detection, and the decisions of the console turn loop.
pub mod game;
pub mod input;

pub use game::{GameResult, MoveError, Slot, TicTacToe};
pub use input::{Choice, GameState};
