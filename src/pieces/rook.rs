use vstd::prelude::*;
use crate::board::Board;
use crate::pieces::parallel_movement::{parallel_step, parallel_threat, ParallelMovement};
use crate::pieces::{Piece, PieceMovement, StepChecker};

verus! {

pub struct Rook;

impl ParallelMovement for Rook {

}

impl PieceMovement for Rook {
    open spec fn step_spec(dx: int, dy: int) -> Option<StepChecker> {
        parallel_step(dx, dy)
    }

    open spec fn threat_spec(piece: Piece, b: Seq<Option<Piece>>) -> bool {
        parallel_threat(piece, b)
    }

    fn new() -> Self {
        Rook {  }
    }

    fn is_enemy_in_check(&self, piece: &Piece, board: &Board) -> (r: bool) {
        <Self as ParallelMovement>::is_enemy_in_check(self, piece, board)
    }

    fn step_checker(&self, diff: (i8, i8)) -> (r: Option<StepChecker>) {
        <Self as ParallelMovement>::step_checker(self, diff)
    }
}

} // verus!
