use vstd::prelude::*;
use crate::pieces::Piece;
use crate::positions::Position;

verus! {

/// Every way a command or a move can be rejected.
#[derive(Debug)]
pub enum ChessError {
    InvalidPosition(String),
    InvalidMove(Position, Position),
    InvalidInput(String),
    EmptyCell(Position),
    WrongColor(Position),
}

/// What a successful move produced.
#[derive(Debug, Clone, Copy, PartialEq, Eq, Structural)]
pub enum StepResultData {
    Moved,
    Eaten(Piece),
    Check(Color),
}

pub type ChessResult<T> = Result<T, ChessError>;

#[derive(Debug, Copy, Clone, PartialEq, Eq, Structural)]
pub enum Color {
    White,
    Black,
}

impl Color {
    pub open spec fn opposite(self) -> Color {
        match self {
            Color::White => Color::Black,
            Color::Black => Color::White,
        }
    }
}

impl std::ops::Not for Color {
    type Output = Color;

    fn not(self) -> (r: Color)
        ensures
            r == self.opposite(),
    {
        match self {
            Color::White => Color::Black,
            Color::Black => Color::White,
        }
    }
}

impl vstd::std_specs::ops::NotSpecImpl for Color {
    open spec fn obeys_not_spec() -> bool {
        true
    }

    open spec fn not_req(self) -> bool {
        true
    }

    open spec fn not_spec(self) -> Color {
        self.opposite()
    }
}

} // verus!
