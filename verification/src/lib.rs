//! A two-player tic-tac-toe engine: a 3x3 board, alternating turns,
//! move validation, win/draw detection, and coordinate parsing.
//!
//! The engine itself never performs I/O: a driving loop asks for the
//! current turn, parses a coordinate from user input, attempts the
//! placement, and queries the game result after each successful move.

pub mod game;

pub use game::Game;
pub use game::GameResult;
pub use game::PlaceError;
pub use game::Player;
pub use game::Point;
pub use game::PointError;
