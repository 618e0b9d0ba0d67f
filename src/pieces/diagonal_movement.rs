use vstd::prelude::*;
use crate::board::Board;
use crate::pieces::{
    dest_is_same_color, dest_same_color, find_check_state_in_path, is_trace, lemma_trace_clear,
    lemma_trace_threat, path_clear, path_is_empty, ray_threat, trace, Piece, StepChecker,
};
use crate::positions::{Horizontal, Position};

verus! {

/// The test for a diagonal move of shape `(dx, dy)`.
pub open spec fn diagonal_step(dx: int, dy: int) -> Option<StepChecker> {
    if dx == dy && dx != 0 {
        Some(StepChecker::Uphill)
    } else if dx == -dy && dx != 0 {
        Some(StepChecker::Downhill)
    } else {
        None
    }
}

/// One of the four diagonal rays from the piece meets the enemy king first.
pub open spec fn diagonal_threat(piece: Piece, b: Seq<Option<Piece>>) -> bool {
    ray_threat(piece, b, -1, -1) || ray_threat(piece, b, 1, 1) || ray_threat(piece, b, -1, 1)
        || ray_threat(piece, b, 1, -1)
}

/// Moves along the diagonals.
pub trait DiagonalMovement {
    fn is_enemy_in_check(&self, piece: &Piece, board: &Board) -> (r: bool)
        requires
            board.wf(),
        ensures
            r == diagonal_threat(*piece, board@),
    {
        let p = &piece.position;
        let to_a_up = uphill_path(p, Horizontal::HorA);
        let to_h_up = uphill_path(p, Horizontal::HorH);
        let to_a_down = downhill_path(p, Horizontal::HorA);
        let to_h_down = downhill_path(p, Horizontal::HorH);
        proof {
            lemma_trace_threat(to_a_up@, *piece, board@, -1, -1, p.file());
            lemma_trace_threat(to_h_up@, *piece, board@, 1, 1, 7 - p.file());
            lemma_trace_threat(to_a_down@, *piece, board@, -1, 1, p.file());
            lemma_trace_threat(to_h_down@, *piece, board@, 1, -1, 7 - p.file());
        }
        find_check_state_in_path(&to_a_up, piece, board) || find_check_state_in_path(
            &to_h_up,
            piece,
            board,
        ) || find_check_state_in_path(&to_a_down, piece, board) || find_check_state_in_path(
            &to_h_down,
            piece,
            board,
        )
    }

    fn step_checker(&self, diff: (i8, i8)) -> (r: Option<StepChecker>)
        ensures
            r == diagonal_step(diff.0 as int, diff.1 as int),
            r matches Some(c) ==> c.fits(diff.0 as int, diff.1 as int),
    {
        let (i, j) = diff;
        if i == j && i != 0 {
            Some(StepChecker::Uphill)
        } else if i as i16 == -(j as i16) && i != 0 {
            Some(StepChecker::Downhill)
        } else {
            None
        }
    }
}

pub(crate) fn check_uphill(me: &Piece, new_position: &Position, board: &Board) -> (r: bool)
    requires
        board.wf(),
        StepChecker::Uphill.fits(
            new_position.file() - me.position.file(),
            new_position.rank() - me.position.rank(),
        ),
    ensures
        r == (!dest_same_color(*me, *new_position, board@) && path_clear(
            board@,
            me.position,
            *new_position,
        )),
{
    let path = uphill_path(&me.position, new_position.hor);
    proof {
        lemma_trace_clear(path@, me.position, *new_position, board@);
    }
    !dest_is_same_color(me, new_position, board) && path_is_empty(&path, board)
}

pub(crate) fn check_downhill(me: &Piece, new_position: &Position, board: &Board) -> (r: bool)
    requires
        board.wf(),
        StepChecker::Downhill.fits(
            new_position.file() - me.position.file(),
            new_position.rank() - me.position.rank(),
        ),
    ensures
        r == (!dest_same_color(*me, *new_position, board@) && path_clear(
            board@,
            me.position,
            *new_position,
        )),
{
    let path = downhill_path(&me.position, new_position.hor);
    proof {
        lemma_trace_clear(path@, me.position, *new_position, board@);
    }
    !dest_is_same_color(me, new_position, board) && path_is_empty(&path, board)
}

/// The squares from `from` along its rising diagonal (file and rank grow
/// together) towards file `to`, up to that file or the board's edge.
fn uphill_path(from: &Position, to: Horizontal) -> (path: Vec<Position>)
    ensures
        to.value() <= from.file() ==> is_trace(path@, *from, -1, -1, from.file() - to.value()),
        to.value() >= from.file() ==> is_trace(path@, *from, 1, 1, to.value() - from.file()),
{
    let f = from.hor.to_u8();
    let t = to.to_u8();
    if f > t {
        trace(from, -1, -1, f - t)
    } else {
        let path = trace(from, 1, 1, t - f);
        proof {
            if t == f {
                assert(path@[0].file() == from.file());
            }
        }
        path
    }
}

/// The squares from `from` along its falling diagonal (rank falls as file grows)
/// towards file `to`, up to that file or the board's edge.
fn downhill_path(from: &Position, to: Horizontal) -> (path: Vec<Position>)
    ensures
        to.value() <= from.file() ==> is_trace(path@, *from, -1, 1, from.file() - to.value()),
        to.value() >= from.file() ==> is_trace(path@, *from, 1, -1, to.value() - from.file()),
{
    let f = from.hor.to_u8();
    let t = to.to_u8();
    if f > t {
        trace(from, -1, 1, f - t)
    } else {
        let path = trace(from, 1, -1, t - f);
        proof {
            if t == f {
                assert(path@[0].file() == from.file());
            }
        }
        path
    }
}

} // verus!
