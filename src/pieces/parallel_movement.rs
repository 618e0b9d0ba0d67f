use vstd::prelude::*;
use crate::board::Board;
use crate::pieces::{
    dest_is_same_color, dest_same_color, find_check_state_in_path, is_trace, lemma_trace_clear,
    lemma_trace_threat, path_clear, path_is_empty, ray_threat, trace, Piece, StepChecker,
};
use crate::positions::{Horizontal, Position, Vertical};

verus! {

/// The test for a move of shape `(dx, dy)` along a file or a rank.
pub open spec fn parallel_step(dx: int, dy: int) -> Option<StepChecker> {
    if dx == 0 && dy != 0 {
        Some(StepChecker::Vertical)
    } else if dy == 0 && dx != 0 {
        Some(StepChecker::Horizontal)
    } else {
        None
    }
}

/// One of the four rays along the piece's file and rank meets the enemy king first.
pub open spec fn parallel_threat(piece: Piece, b: Seq<Option<Piece>>) -> bool {
    ray_threat(piece, b, -1, 0) || ray_threat(piece, b, 1, 0) || ray_threat(piece, b, 0, -1)
        || ray_threat(piece, b, 0, 1)
}

/// Moves along files and ranks.
pub trait ParallelMovement {
    fn is_enemy_in_check(&self, piece: &Piece, board: &Board) -> (r: bool)
        requires
            board.wf(),
        ensures
            r == parallel_threat(*piece, board@),
    {
        let p = &piece.position;
        let to_a = horizontal_path(p.hor, Horizontal::HorA, p.vert);
        let to_h = horizontal_path(p.hor, Horizontal::HorH, p.vert);
        let to_1 = vertical_path(p.vert, Vertical::Vert1, p.hor);
        let to_8 = vertical_path(p.vert, Vertical::Vert8, p.hor);
        proof {
            lemma_trace_threat(to_a@, *piece, board@, -1, 0, p.file());
            lemma_trace_threat(to_h@, *piece, board@, 1, 0, 7 - p.file());
            lemma_trace_threat(to_1@, *piece, board@, 0, -1, p.rank());
            lemma_trace_threat(to_8@, *piece, board@, 0, 1, 7 - p.rank());
        }
        find_check_state_in_path(&to_a, piece, board) || find_check_state_in_path(
            &to_h,
            piece,
            board,
        ) || find_check_state_in_path(&to_1, piece, board) || find_check_state_in_path(
            &to_8,
            piece,
            board,
        )
    }

    fn step_checker(&self, diff: (i8, i8)) -> (r: Option<StepChecker>)
        ensures
            r == parallel_step(diff.0 as int, diff.1 as int),
            r matches Some(c) ==> c.fits(diff.0 as int, diff.1 as int),
    {
        let (i, j) = diff;
        if i == 0 && j != 0 {
            Some(StepChecker::Vertical)
        } else if j == 0 && i != 0 {
            Some(StepChecker::Horizontal)
        } else {
            None
        }
    }
}

pub(crate) fn check_horizontal(me: &Piece, new_position: &Position, board: &Board) -> (r: bool)
    requires
        board.wf(),
        StepChecker::Horizontal.fits(
            new_position.file() - me.position.file(),
            new_position.rank() - me.position.rank(),
        ),
    ensures
        r == (!dest_same_color(*me, *new_position, board@) && path_clear(
            board@,
            me.position,
            *new_position,
        )),
{
    let path = horizontal_path(me.position.hor, new_position.hor, me.position.vert);
    proof {
        lemma_trace_clear(path@, me.position, *new_position, board@);
    }
    !dest_is_same_color(me, new_position, board) && path_is_empty(&path, board)
}

pub(crate) fn check_vertical(me: &Piece, new_position: &Position, board: &Board) -> (r: bool)
    requires
        board.wf(),
        StepChecker::Vertical.fits(
            new_position.file() - me.position.file(),
            new_position.rank() - me.position.rank(),
        ),
    ensures
        r == (!dest_same_color(*me, *new_position, board@) && path_clear(
            board@,
            me.position,
            *new_position,
        )),
{
    let path = vertical_path(me.position.vert, new_position.vert, me.position.hor);
    proof {
        lemma_trace_clear(path@, me.position, *new_position, board@);
    }
    !dest_is_same_color(me, new_position, board) && path_is_empty(&path, board)
}

/// The squares of rank `vert` from file `from` towards file `to`.
fn horizontal_path(from: Horizontal, to: Horizontal, vert: Vertical) -> (path: Vec<Position>)
    ensures
        to.value() <= from.value() ==> is_trace(
            path@,
            Position { hor: from, vert },
            -1,
            0,
            from.value() - to.value(),
        ),
        to.value() >= from.value() ==> is_trace(
            path@,
            Position { hor: from, vert },
            1,
            0,
            to.value() - from.value(),
        ),
{
    let start = Position { hor: from, vert };
    let f = from.to_u8();
    let t = to.to_u8();
    if f > t {
        trace(&start, -1, 0, f - t)
    } else {
        let path = trace(&start, 1, 0, t - f);
        proof {
            if t == f {
                assert(path@[0].file() == start.file());
            }
        }
        path
    }
}

/// The squares of file `hor` from rank `from` towards rank `to`.
fn vertical_path(from: Vertical, to: Vertical, hor: Horizontal) -> (path: Vec<Position>)
    ensures
        to.value() <= from.value() ==> is_trace(
            path@,
            Position { hor, vert: from },
            0,
            -1,
            from.value() - to.value(),
        ),
        to.value() >= from.value() ==> is_trace(
            path@,
            Position { hor, vert: from },
            0,
            1,
            to.value() - from.value(),
        ),
{
    let start = Position { hor, vert: from };
    let f = from.to_u8();
    let t = to.to_u8();
    if f > t {
        trace(&start, 0, -1, f - t)
    } else {
        let path = trace(&start, 0, 1, t - f);
        proof {
            if t == f {
                assert(path@[0].rank() == start.rank());
            }
        }
        path
    }
}

} // verus!
