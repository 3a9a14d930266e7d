//! A two-player tic-tac-toe game for the terminal: the board and its
//! evaluation, the turn-taking rules, and the text of each frame.

pub mod board;
pub mod game;
pub mod screen;

pub use board::{Board, BoardState, Cell, Player};
pub use game::{Flow, Game, Input};
pub use screen::Palette;
