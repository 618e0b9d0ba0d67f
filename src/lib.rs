//! The rules of a two-player chess game: squares and their names, pieces and how
//! each kind moves and gives check, the board and the moves made on it, typed and
//! transmitted move commands, and the turns of a session.
use vstd::prelude::*;

pub mod board;
pub mod command;
pub mod common;
pub mod pieces;
pub mod positions;
pub mod session;
pub mod wire;

pub use board::Board;
pub use common::{ChessError, ChessResult, Color, StepResultData};
pub use pieces::{Piece, PieceType};
pub use positions::{Horizontal, Position, Vertical};

verus! {

} // verus!
