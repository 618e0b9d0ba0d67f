use vstd::prelude::*;
use crate::board::Board;
use crate::pieces::{
    dest_is_same_color, dest_same_color, king_step, Piece, PieceMovement, StepChecker,
};
use crate::positions::Position;

verus! {

pub struct King;

impl PieceMovement for King {
    open spec fn step_spec(dx: int, dy: int) -> Option<StepChecker> {
        king_step(dx, dy)
    }

    /// A king never declares check itself.
    open spec fn threat_spec(piece: Piece, b: Seq<Option<Piece>>) -> bool {
        false
    }

    fn new() -> Self {
        King {  }
    }

    fn is_enemy_in_check(&self, _piece: &Piece, _board: &Board) -> (r: bool) {
        false
    }

    fn step_checker(&self, diff: (i8, i8)) -> (r: Option<StepChecker>) {
        match diff {
            (0, 0) => None,
            (-1..=1, -1..=1) => Some(StepChecker::KingStep),
            _ => None,
        }
    }
}

pub(crate) fn check(me: &Piece, new_position: &Position, board: &Board) -> (r: bool)
    requires
        board.wf(),
    ensures
        r == !dest_same_color(*me, *new_position, board@),
{
    !dest_is_same_color(me, new_position, board)
}

} // verus!
