use vstd::prelude::*;
use crate::board::Board;
use crate::pieces::diagonal_movement::{diagonal_step, diagonal_threat, DiagonalMovement};
use crate::pieces::parallel_movement::{parallel_step, parallel_threat, ParallelMovement};
use crate::pieces::{Piece, PieceMovement, StepChecker};

verus! {

pub struct Queen;

impl DiagonalMovement for Queen {

}

impl ParallelMovement for Queen {

}

impl PieceMovement for Queen {
    open spec fn step_spec(dx: int, dy: int) -> Option<StepChecker> {
        match diagonal_step(dx, dy) {
            Some(c) => Some(c),
            None => parallel_step(dx, dy),
        }
    }

    open spec fn threat_spec(piece: Piece, b: Seq<Option<Piece>>) -> bool {
        diagonal_threat(piece, b) || parallel_threat(piece, b)
    }

    fn new() -> Self {
        Queen {  }
    }

    fn is_enemy_in_check(&self, piece: &Piece, board: &Board) -> (r: bool) {
        <Self as DiagonalMovement>::is_enemy_in_check(self, piece, board)
            || <Self as ParallelMovement>::is_enemy_in_check(self, piece, board)
    }

    fn step_checker(&self, diff: (i8, i8)) -> (r: Option<StepChecker>) {
        match <Self as DiagonalMovement>::step_checker(self, diff) {
            Some(c) => Some(c),
            None => <Self as ParallelMovement>::step_checker(self, diff),
        }
    }
}

} // verus!
