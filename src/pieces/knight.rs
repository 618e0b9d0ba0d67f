use vstd::prelude::*;
use crate::board::Board;
use crate::pieces::{
    abs, dest_is_same_color, dest_same_color, enemy_king_at, enemy_king_at_offset, Piece,
    PieceMovement, StepChecker,
};
use crate::positions::Position;

verus! {

/// The test for a knight's move of shape `(dx, dy)`.
pub open spec fn knight_step(dx: int, dy: int) -> Option<StepChecker> {
    if (abs(dx) == 1 && abs(dy) == 2) || (abs(dx) == 2 && abs(dy) == 1) {
        Some(StepChecker::KnightJump)
    } else {
        None
    }
}

/// One of the eight squares a knight's move away holds the enemy king.
pub open spec fn knight_threat(piece: Piece, b: Seq<Option<Piece>>) -> bool {
    enemy_king_at(piece, b, -2, -1) || enemy_king_at(piece, b, -2, 1) || enemy_king_at(
        piece,
        b,
        2,
        -1,
    ) || enemy_king_at(piece, b, 2, 1) || enemy_king_at(piece, b, -1, -2) || enemy_king_at(
        piece,
        b,
        -1,
        2,
    ) || enemy_king_at(piece, b, 1, -2) || enemy_king_at(piece, b, 1, 2)
}

pub struct Knight;

impl PieceMovement for Knight {
    open spec fn step_spec(dx: int, dy: int) -> Option<StepChecker> {
        knight_step(dx, dy)
    }

    open spec fn threat_spec(piece: Piece, b: Seq<Option<Piece>>) -> bool {
        knight_threat(piece, b)
    }

    fn new() -> Self {
        Knight {  }
    }

    fn is_enemy_in_check(&self, piece: &Piece, board: &Board) -> (r: bool) {
        enemy_king_at_offset(piece, -2, -1, board) || enemy_king_at_offset(piece, -2, 1, board)
            || enemy_king_at_offset(piece, 2, -1, board) || enemy_king_at_offset(piece, 2, 1, board)
            || enemy_king_at_offset(piece, -1, -2, board) || enemy_king_at_offset(
            piece,
            -1,
            2,
            board,
        ) || enemy_king_at_offset(piece, 1, -2, board) || enemy_king_at_offset(piece, 1, 2, board)
    }

    fn step_checker(&self, diff: (i8, i8)) -> (r: Option<StepChecker>) {
        match diff {
            (-2, -1) => Some(StepChecker::KnightJump),
            (-2, 1) => Some(StepChecker::KnightJump),
            (2, -1) => Some(StepChecker::KnightJump),
            (2, 1) => Some(StepChecker::KnightJump),
            (-1, -2) => Some(StepChecker::KnightJump),
            (-1, 2) => Some(StepChecker::KnightJump),
            (1, -2) => Some(StepChecker::KnightJump),
            (1, 2) => Some(StepChecker::KnightJump),
            _ => None,
        }
    }
}

pub(crate) fn check(me: &Piece, new_position: &Position, board: &Board) -> (r: bool)
    requires
        board.wf(),
    ensures
        r == !dest_same_color(*me, *new_position, board@),
{
    !dest_is_same_color(me, new_position, board)
}

} // verus!
