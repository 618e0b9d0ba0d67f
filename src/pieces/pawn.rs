use vstd::prelude::*;
use crate::board::Board;
use crate::common::Color;
use crate::pieces::{
    enemy_king_at, enemy_king_at_offset, Piece, PieceMovement, StepChecker,
};
use crate::positions::Position;

verus! {

/// The test for a pawn's move of shape `(dx, dy)`: forward one or two squares,
/// or one square forward on a diagonal, for either color.
pub open spec fn pawn_step(dx: int, dy: int) -> Option<StepChecker> {
    if dx == 0 && dy == 1 {
        Some(StepChecker::Up)
    } else if dx == 0 && dy == 2 {
        Some(StepChecker::LongUp)
    } else if (dx == -1 || dx == 1) && dy == 1 {
        Some(StepChecker::DiagonalUp)
    } else if dx == 0 && dy == -1 {
        Some(StepChecker::Down)
    } else if dx == 0 && dy == -2 {
        Some(StepChecker::LongDown)
    } else if (dx == -1 || dx == 1) && dy == -1 {
        Some(StepChecker::DiagonalDown)
    } else {
        None
    }
}

/// One of the two squares diagonally ahead of the pawn holds the enemy king.
pub open spec fn pawn_threat(piece: Piece, b: Seq<Option<Piece>>) -> bool {
    let ahead: int = if piece.color == Color::White {
        1
    } else {
        -1
    };
    enemy_king_at(piece, b, -1, ahead) || enemy_king_at(piece, b, 1, ahead)
}

pub struct Pawn;

impl PieceMovement for Pawn {
    open spec fn step_spec(dx: int, dy: int) -> Option<StepChecker> {
        pawn_step(dx, dy)
    }

    open spec fn threat_spec(piece: Piece, b: Seq<Option<Piece>>) -> bool {
        pawn_threat(piece, b)
    }

    fn new() -> Self {
        Pawn {  }
    }

    fn is_enemy_in_check(&self, piece: &Piece, board: &Board) -> (r: bool) {
        let mult: i8 = if piece.color == Color::White {
            1
        } else {
            -1
        };
        if enemy_king_at_offset(piece, -1, mult, board) {
            return true;
        }
        if enemy_king_at_offset(piece, 1, mult, board) {
            return true;
        }
        false
    }

    fn step_checker(&self, diff: (i8, i8)) -> (r: Option<StepChecker>) {
        match diff {
            (0, 1) => Some(StepChecker::Up),
            (0, 2) => Some(StepChecker::LongUp),
            (-1, 1) => Some(StepChecker::DiagonalUp),
            (1, 1) => Some(StepChecker::DiagonalUp),
            (0, -1) => Some(StepChecker::Down),
            (0, -2) => Some(StepChecker::LongDown),
            (-1, -1) => Some(StepChecker::DiagonalDown),
            (1, -1) => Some(StepChecker::DiagonalDown),
            _ => None,
        }
    }
}

pub(crate) fn check_up(me: &Piece, new_position: &Position, board: &Board) -> (r: bool)
    requires
        board.wf(),
    ensures
        r == StepChecker::Up.holds(*me, *new_position, board@),
{
    me.color == Color::White && check_forward(me, board.cell(new_position))
}

pub(crate) fn check_long_up(me: &Piece, new_position: &Position, board: &Board) -> (r: bool)
    requires
        board.wf(),
        StepChecker::LongUp.fits(
            new_position.file() - me.position.file(),
            new_position.rank() - me.position.rank(),
        ),
    ensures
        r == StepChecker::LongUp.holds(*me, *new_position, board@),
{
    let passed = match new_position.transform(0, -1) {
        Some(p) => p,
        None => me.position,
    };
    me.color == Color::White && check_long_forward(me, board.cell(new_position)) && board.cell(
        &passed,
    ).is_none()
}

pub(crate) fn check_diagonal_up(me: &Piece, new_position: &Position, board: &Board) -> (r: bool)
    requires
        board.wf(),
    ensures
        r == StepChecker::DiagonalUp.holds(*me, *new_position, board@),
{
    me.color == Color::White && check_diagonal(me, board.cell(new_position))
}

pub(crate) fn check_down(me: &Piece, new_position: &Position, board: &Board) -> (r: bool)
    requires
        board.wf(),
    ensures
        r == StepChecker::Down.holds(*me, *new_position, board@),
{
    me.color == Color::Black && check_forward(me, board.cell(new_position))
}

pub(crate) fn check_long_down(me: &Piece, new_position: &Position, board: &Board) -> (r: bool)
    requires
        board.wf(),
        StepChecker::LongDown.fits(
            new_position.file() - me.position.file(),
            new_position.rank() - me.position.rank(),
        ),
    ensures
        r == StepChecker::LongDown.holds(*me, *new_position, board@),
{
    let passed = match new_position.transform(0, 1) {
        Some(p) => p,
        None => me.position,
    };
    me.color == Color::Black && check_long_forward(me, board.cell(new_position)) && board.cell(
        &passed,
    ).is_none()
}

pub(crate) fn check_diagonal_down(me: &Piece, new_position: &Position, board: &Board) -> (r: bool)
    requires
        board.wf(),
    ensures
        r == StepChecker::DiagonalDown.holds(*me, *new_position, board@),
{
    me.color == Color::Black && check_diagonal(me, board.cell(new_position))
}

fn check_forward(_me: &Piece, dest: &Option<Piece>) -> (r: bool)
    ensures
        r == dest is None,
{
    dest.is_none()
}

fn check_long_forward(me: &Piece, dest: &Option<Piece>) -> (r: bool)
    ensures
        r == (!me.moved && dest is None),
{
    !me.moved && dest.is_none()
}

fn check_diagonal(me: &Piece, dest: &Option<Piece>) -> (r: bool)
    ensures
        r == (dest matches Some(o) && o.color != me.color),
{
    match dest {
        Some(other) => other.color != me.color,
        None => false,
    }
}

} // verus!
