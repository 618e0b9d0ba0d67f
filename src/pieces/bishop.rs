use vstd::prelude::*;
use crate::board::Board;
use crate::pieces::diagonal_movement::{diagonal_step, diagonal_threat, DiagonalMovement};
use crate::pieces::{Piece, PieceMovement, StepChecker};

verus! {

pub struct Bishop;

impl DiagonalMovement for Bishop {

}

impl PieceMovement for Bishop {
    open spec fn step_spec(dx: int, dy: int) -> Option<StepChecker> {
        diagonal_step(dx, dy)
    }

    open spec fn threat_spec(piece: Piece, b: Seq<Option<Piece>>) -> bool {
        diagonal_threat(piece, b)
    }

    fn new() -> Self {
        Bishop {  }
    }

    fn is_enemy_in_check(&self, piece: &Piece, board: &Board) -> (r: bool) {
        <Self as DiagonalMovement>::is_enemy_in_check(self, piece, board)
    }

    fn step_checker(&self, diff: (i8, i8)) -> (r: Option<StepChecker>) {
        <Self as DiagonalMovement>::step_checker(self, diff)
    }
}

} // verus!
