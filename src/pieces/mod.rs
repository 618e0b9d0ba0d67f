use vstd::prelude::*;
use crate::board::Board;
use crate::common::Color;
use crate::positions::{on_board, Position};
use crate::pieces::bishop::Bishop;
use crate::pieces::diagonal_movement::{diagonal_step, diagonal_threat};
use crate::pieces::king::King;
use crate::pieces::knight::{knight_step, knight_threat, Knight};
use crate::pieces::parallel_movement::{parallel_step, parallel_threat};
use crate::pieces::pawn::{pawn_step, pawn_threat, Pawn};
use crate::pieces::queen::Queen;
use crate::pieces::rook::Rook;

pub mod bishop;
pub mod diagonal_movement;
pub mod king;
pub mod knight;
pub mod parallel_movement;
pub mod pawn;
pub mod queen;
pub mod rook;

verus! {

#[derive(Debug, Copy, Clone, PartialEq, Eq, Structural)]
pub enum PieceType {
    Pawn,
    Knight,
    Bishop,
    Rook,
    Queen,
    King,
}

#[derive(Debug, Copy, Clone, PartialEq, Eq, Structural)]
pub struct Piece {
    pub piece_type: PieceType,
    pub color: Color,
    pub position: Position,
    /// Set by the piece's first move and never cleared.
    pub moved: bool,
}

/// The test that decides whether a move of a given shape is allowed.
#[derive(Debug, Copy, Clone, PartialEq, Eq, Structural)]
pub enum StepChecker {
    KnightJump,
    KingStep,
    Uphill,
    Downhill,
    Horizontal,
    Vertical,
    Up,
    LongUp,
    DiagonalUp,
    Down,
    LongDown,
    DiagonalDown,
}

/// What a board holds at file `f` and rank `r`.
pub open spec fn cell_at(b: Seq<Option<Piece>>, f: int, r: int) -> Option<Piece> {
    b[r * 8 + f]
}

/// `j` steps in the direction of the sign of `d`.
pub open spec fn walk(d: int, j: int) -> int {
    if d > 0 {
        j
    } else if d < 0 {
        -j
    } else {
        0
    }
}

/// The `k`-th square from `p` in the direction of the signs of `df` and `dr`.
pub open spec fn ray_on_board(p: Position, df: int, dr: int, k: int) -> bool {
    on_board(p.file() + walk(df, k), p.rank() + walk(dr, k))
}

pub open spec fn ray_at(b: Seq<Option<Piece>>, p: Position, df: int, dr: int, k: int) -> Option<
    Piece,
> {
    cell_at(b, p.file() + walk(df, k), p.rank() + walk(dr, k))
}

/// `other` is the king of `piece`'s opponent.
pub open spec fn is_enemy_king(piece: Piece, other: Piece) -> bool {
    other.color != piece.color && other.piece_type == PieceType::King
}

/// The square `(df, dr)` away from `piece` is on the board and holds the enemy king.
pub open spec fn enemy_king_at(piece: Piece, b: Seq<Option<Piece>>, df: int, dr: int) -> bool {
    let f = piece.position.file() + df;
    let r = piece.position.rank() + dr;
    on_board(f, r) && (cell_at(b, f, r) matches Some(o) && is_enemy_king(piece, o))
}

/// Along the ray from `piece` in direction `(df, dr)`, the first occupied square
/// holds the enemy king.
pub open spec fn ray_threat(piece: Piece, b: Seq<Option<Piece>>, df: int, dr: int) -> bool {
    exists|k: int|
        1 <= k && ray_on_board(piece.position, df, dr, k) && (#[trigger] ray_at(
            b,
            piece.position,
            df,
            dr,
            k,
        ) matches Some(o) && is_enemy_king(piece, o)) && forall|j: int|
            1 <= j < k ==> (#[trigger] ray_at(b, piece.position, df, dr, j)) is None
}

pub open spec fn sgn(x: int) -> int {
    if x > 0 {
        1
    } else if x < 0 {
        -1
    } else {
        0
    }
}

pub open spec fn abs(x: int) -> int {
    if x < 0 {
        -x
    } else {
        x
    }
}

/// The number of steps of a straight or diagonal move from `from` to `to`.
pub open spec fn distance(from: Position, to: Position) -> int {
    let dx = abs(to.file() - from.file());
    let dy = abs(to.rank() - from.rank());
    if dx > dy {
        dx
    } else {
        dy
    }
}

/// Every square strictly between `from` and `to` on the direct path is empty.
pub open spec fn path_clear(b: Seq<Option<Piece>>, from: Position, to: Position) -> bool {
    forall|j: int|
        1 <= j < distance(from, to) ==> (#[trigger] ray_at(
            b,
            from,
            to.file() - from.file(),
            to.rank() - from.rank(),
            j,
        )) is None
}

/// The destination holds a piece of the mover's own color.
pub open spec fn dest_same_color(piece: Piece, to: Position, b: Seq<Option<Piece>>) -> bool {
    b[to.index()] matches Some(o) && o.color == piece.color
}

impl StepChecker {
    /// The shapes of move `(dx, dy)` that the test is written for.
    pub open spec fn fits(self, dx: int, dy: int) -> bool {
        match self {
            StepChecker::Uphill => dx == dy && dx != 0,
            StepChecker::Downhill => dx == -dy && dx != 0,
            StepChecker::Horizontal => dy == 0 && dx != 0,
            StepChecker::Vertical => dx == 0 && dy != 0,
            StepChecker::LongUp => dx == 0 && dy == 2,
            StepChecker::LongDown => dx == 0 && dy == -2,
            _ => true,
        }
    }

    /// Whether the test allows `me` to move to `to` on board `b`.
    pub open spec fn holds(self, me: Piece, to: Position, b: Seq<Option<Piece>>) -> bool {
        match self {
            StepChecker::KnightJump | StepChecker::KingStep => !dest_same_color(me, to, b),
            StepChecker::Uphill | StepChecker::Downhill | StepChecker::Horizontal
            | StepChecker::Vertical => !dest_same_color(me, to, b) && path_clear(b, me.position, to),
            StepChecker::Up => me.color == Color::White && b[to.index()] is None,
            StepChecker::LongUp => me.color == Color::White && !me.moved && b[to.index()] is None
                && cell_at(b, to.file(), to.rank() - 1) is None,
            StepChecker::DiagonalUp => me.color == Color::White && (b[to.index()] matches Some(o)
                && o.color != me.color),
            StepChecker::Down => me.color == Color::Black && b[to.index()] is None,
            StepChecker::LongDown => me.color == Color::Black && !me.moved && b[to.index()] is None
                && cell_at(b, to.file(), to.rank() + 1) is None,
            StepChecker::DiagonalDown => me.color == Color::Black && (b[to.index()] matches Some(o)
                && o.color != me.color),
        }
    }

    pub fn run(&self, me: &Piece, new_position: &Position, board: &Board) -> (r: bool)
        requires
            board.wf(),
            self.fits(
                new_position.file() - me.position.file(),
                new_position.rank() - me.position.rank(),
            ),
        ensures
            r == self.holds(*me, *new_position, board@),
    {
        match self {
            StepChecker::KnightJump => knight::check(me, new_position, board),
            StepChecker::KingStep => king::check(me, new_position, board),
            StepChecker::Uphill => diagonal_movement::check_uphill(me, new_position, board),
            StepChecker::Downhill => diagonal_movement::check_downhill(me, new_position, board),
            StepChecker::Horizontal => parallel_movement::check_horizontal(me, new_position, board),
            StepChecker::Vertical => parallel_movement::check_vertical(me, new_position, board),
            StepChecker::Up => pawn::check_up(me, new_position, board),
            StepChecker::LongUp => pawn::check_long_up(me, new_position, board),
            StepChecker::DiagonalUp => pawn::check_diagonal_up(me, new_position, board),
            StepChecker::Down => pawn::check_down(me, new_position, board),
            StepChecker::LongDown => pawn::check_long_down(me, new_position, board),
            StepChecker::DiagonalDown => pawn::check_diagonal_down(me, new_position, board),
        }
    }
}

/// The test for a move of shape `(dx, dy)` by a piece of the given kind, if the
/// kind can make such a move at all.
pub open spec fn step_of(kind: PieceType, dx: int, dy: int) -> Option<StepChecker> {
    match kind {
        PieceType::Pawn => pawn_step(dx, dy),
        PieceType::Knight => knight_step(dx, dy),
        PieceType::Bishop => diagonal_step(dx, dy),
        PieceType::Rook => parallel_step(dx, dy),
        PieceType::Queen => match diagonal_step(dx, dy) {
            Some(c) => Some(c),
            None => parallel_step(dx, dy),
        },
        PieceType::King => king_step(dx, dy),
    }
}

pub open spec fn king_step(dx: int, dy: int) -> Option<StepChecker> {
    if (dx != 0 || dy != 0) && -1 <= dx <= 1 && -1 <= dy <= 1 {
        Some(StepChecker::KingStep)
    } else {
        None
    }
}

/// Whether `piece` may move to `to` on board `b`, its own cell aside.
#[verifier::opaque]
pub open spec fn can_move_spec(piece: Piece, to: Position, b: Seq<Option<Piece>>) -> bool {
    match step_of(
        piece.piece_type,
        to.file() - piece.position.file(),
        to.rank() - piece.position.rank(),
    ) {
        Some(c) => c.holds(piece, to, b),
        None => false,
    }
}

/// Whether `piece`, from its square, attacks the enemy king on board `b`.
#[verifier::opaque]
pub open spec fn threatens(piece: Piece, b: Seq<Option<Piece>>) -> bool {
    match piece.piece_type {
        PieceType::Pawn => pawn_threat(piece, b),
        PieceType::Knight => knight_threat(piece, b),
        PieceType::Bishop => diagonal_threat(piece, b),
        PieceType::Rook => parallel_threat(piece, b),
        PieceType::Queen => diagonal_threat(piece, b) || parallel_threat(piece, b),
        PieceType::King => false,
    }
}

/// No piece may move to the square it stands on.
pub proof fn lemma_no_null_move(piece: Piece, b: Seq<Option<Piece>>)
    ensures
        !can_move_spec(piece, piece.position, b),
{
    reveal(can_move_spec);
}

/// A bishop, rook or queen cannot pass a piece: when a square strictly between
/// its square and the destination, on the direct path, is occupied, the move is
/// refused, whatever the destination holds.
pub proof fn lemma_blocked_slider(piece: Piece, to: Position, b: Seq<Option<Piece>>, j: int)
    requires
        piece.piece_type == PieceType::Bishop || piece.piece_type == PieceType::Rook
            || piece.piece_type == PieceType::Queen,
        1 <= j < distance(piece.position, to),
        ray_at(
            b,
            piece.position,
            to.file() - piece.position.file(),
            to.rank() - piece.position.rank(),
            j,
        ) is Some,
    ensures
        !can_move_spec(piece, to, b),
{
    reveal(can_move_spec);
}

/// The symbol of a piece: the chess figures of Unicode, white ones for white.
pub open spec fn icon_of(kind: PieceType, color: Color) -> char {
    match (kind, color) {
        (PieceType::Pawn, Color::White) => '\u{2659}',
        (PieceType::Knight, Color::White) => '\u{2658}',
        (PieceType::Bishop, Color::White) => '\u{2657}',
        (PieceType::Rook, Color::White) => '\u{2656}',
        (PieceType::Queen, Color::White) => '\u{2655}',
        (PieceType::King, Color::White) => '\u{2654}',
        (PieceType::Pawn, Color::Black) => '\u{265F}',
        (PieceType::Knight, Color::Black) => '\u{265E}',
        (PieceType::Bishop, Color::Black) => '\u{265D}',
        (PieceType::Rook, Color::Black) => '\u{265C}',
        (PieceType::Queen, Color::Black) => '\u{265B}',
        (PieceType::King, Color::Black) => '\u{265A}',
    }
}

impl Piece {
    pub fn new(piece_type: PieceType, color: Color, position: Position) -> (r: Piece)
        ensures
            r == (Piece { piece_type, color, position, moved: false }),
    {
        Piece { piece_type, color, position, moved: false }
    }

    pub fn mark_as_moved(&mut self)
        ensures
            *final(self) == (Piece { moved: true, ..*old(self) }),
    {
        self.moved = true;
    }

    pub fn icon(&self) -> (r: char)
        ensures
            r == icon_of(self.piece_type, self.color),
    {
        match (self.piece_type, self.color) {
            (PieceType::Pawn, Color::White) => '\u{2659}',
            (PieceType::Knight, Color::White) => '\u{2658}',
            (PieceType::Bishop, Color::White) => '\u{2657}',
            (PieceType::Rook, Color::White) => '\u{2656}',
            (PieceType::Queen, Color::White) => '\u{2655}',
            (PieceType::King, Color::White) => '\u{2654}',
            (PieceType::Pawn, Color::Black) => '\u{265F}',
            (PieceType::Knight, Color::Black) => '\u{265E}',
            (PieceType::Bishop, Color::Black) => '\u{265D}',
            (PieceType::Rook, Color::Black) => '\u{265C}',
            (PieceType::Queen, Color::Black) => '\u{265B}',
            (PieceType::King, Color::Black) => '\u{265A}',
        }
    }

    /// Whether the piece may move to `new_position`, by the rules of its kind.
    pub fn can_move(&self, new_position: &Position, board: &Board) -> (r: bool)
        requires
            board.wf(),
        ensures
            r == can_move_spec(*self, *new_position, board@),
    {
        reveal(can_move_spec);
        match self.piece_type {
            PieceType::Pawn => Pawn.can_move(self, new_position, board),
            PieceType::Knight => Knight.can_move(self, new_position, board),
            PieceType::Bishop => Bishop.can_move(self, new_position, board),
            PieceType::Rook => Rook.can_move(self, new_position, board),
            PieceType::Queen => Queen.can_move(self, new_position, board),
            PieceType::King => King.can_move(self, new_position, board),
        }
    }

    /// Whether the piece, from its square, attacks the enemy king.
    pub fn is_enemy_in_check(&self, board: &Board) -> (r: bool)
        requires
            board.wf(),
        ensures
            r == threatens(*self, board@),
    {
        reveal(threatens);
        match self.piece_type {
            PieceType::Pawn => Pawn.is_enemy_in_check(self, board),
            PieceType::Knight => Knight.is_enemy_in_check(self, board),
            PieceType::Bishop => Bishop.is_enemy_in_check(self, board),
            PieceType::Rook => Rook.is_enemy_in_check(self, board),
            PieceType::Queen => Queen.is_enemy_in_check(self, board),
            PieceType::King => King.is_enemy_in_check(self, board),
        }
    }
}

/// How a kind of piece moves and gives check.
pub trait PieceMovement {
    /// The test for a move of shape `(dx, dy)`, if the kind can make it.
    spec fn step_spec(dx: int, dy: int) -> Option<StepChecker>;

    /// Whether a piece of this kind attacks the enemy king from its square.
    spec fn threat_spec(piece: Piece, b: Seq<Option<Piece>>) -> bool;

    fn new() -> Self where Self: Sized;

    fn is_enemy_in_check(&self, piece: &Piece, board: &Board) -> (r: bool)
        requires
            board.wf(),
        ensures
            r == Self::threat_spec(*piece, board@),
    ;

    fn step_checker(&self, diff: (i8, i8)) -> (r: Option<StepChecker>)
        ensures
            r == Self::step_spec(diff.0 as int, diff.1 as int),
            r matches Some(c) ==> c.fits(diff.0 as int, diff.1 as int),
    ;

    fn can_move(&self, piece: &Piece, new_position: &Position, board: &Board) -> (r: bool)
        requires
            board.wf(),
        ensures
            r == match Self::step_spec(
                new_position.file() - piece.position.file(),
                new_position.rank() - piece.position.rank(),
            ) {
                Some(c) => c.holds(*piece, *new_position, board@),
                None => false,
            },
    {
        let diff = new_position.difference(&piece.position);
        match self.step_checker(diff) {
            Some(f) => f.run(piece, new_position, board),
            None => false,
        }
    }
}

fn verify_check_by_pos(piece: &Piece, other: Position, board: &Board) -> (r: bool)
    requires
        board.wf(),
    ensures
        r == (board@[other.index()] matches Some(o) && is_enemy_king(*piece, o)),
{
    match board.cell(&other) {
        Some(other_piece) => verify_check(piece, other_piece),
        None => false,
    }
}

fn verify_check(piece: &Piece, other: &Piece) -> (r: bool)
    ensures
        r == is_enemy_king(*piece, *other),
{
    other.color != piece.color && other.piece_type == PieceType::King
}

/// Whether the square `(df, dr)` away from `piece` holds the enemy king.
fn enemy_king_at_offset(piece: &Piece, df: i8, dr: i8, board: &Board) -> (r: bool)
    requires
        board.wf(),
        -2 <= df <= 2,
        -2 <= dr <= 2,
    ensures
        r == enemy_king_at(*piece, board@, df as int, dr as int),
{
    match piece.position.transform(df, dr) {
        Some(other) => verify_check_by_pos(piece, other, board),
        None => false,
    }
}

fn dest_is_same_color(piece: &Piece, new_position: &Position, board: &Board) -> (r: bool)
    requires
        board.wf(),
    ensures
        r == dest_same_color(*piece, *new_position, board@),
{
    match board.cell(new_position) {
        None => false,
        Some(other) => other.color == piece.color,
    }
}

/// The squares that a path passes through: a start, then one square per step.
pub open spec fn is_trace(path: Seq<Position>, from: Position, df: int, dr: int, limit: int) -> bool {
    &&& 1 <= path.len() <= limit + 1
    &&& forall|j: int|
        0 <= j < path.len() ==> (#[trigger] path[j]).file() == from.file() + walk(df, j)
            && path[j].rank() == from.rank() + walk(dr, j) && ray_on_board(from, df, dr, j)
    &&& (path.len() == limit + 1 || !ray_on_board(from, df, dr, path.len() as int))
}

/// Walks from `from` in direction `(df, dr)`, for at most `limit` steps, and stops
/// before it would leave the board. The start is the first square; every square
/// of the path is on the board.
fn trace(from: &Position, df: i8, dr: i8, limit: u8) -> (path: Vec<Position>)
    requires
        -1 <= df <= 1,
        -1 <= dr <= 1,
        limit <= 8,
    ensures
        is_trace(path@, *from, df as int, dr as int, limit as int),
{
    let mut path: Vec<Position> = Vec::new();
    path.push(*from);
    let mut cur: Position = *from;
    let mut k: u8 = 0;
    while k < limit
        invariant
            -1 <= df <= 1,
            -1 <= dr <= 1,
            k <= limit,
            path@.len() == k + 1,
            cur == path@[k as int],
            forall|j: int|
                0 <= j < path@.len() ==> (#[trigger] path@[j]).file() == from.file() + walk(
                    df as int,
                    j,
                ) && path@[j].rank() == from.rank() + walk(dr as int, j),
            forall|j: int| 0 <= j < path@.len() ==> ray_on_board(*from, df as int, dr as int, j),
        decreases limit - k,
    {
        match cur.transform(df, dr) {
            Some(next) => {
                path.push(next);
                cur = next;
                k = k + 1;
                assert(ray_on_board(*from, df as int, dr as int, k as int));
            },
            None => {
                return path;
            },
        }
    }
    path
}

/// Every square of the path but its two ends is empty.
fn path_is_empty(path: &Vec<Position>, board: &Board) -> (r: bool)
    requires
        board.wf(),
        path@.len() >= 2,
    ensures
        r == forall|j: int| 1 <= j < path@.len() - 1 ==> board@[#[trigger] path@[j].index()] is None,
{
    let mut i: usize = 1;
    while i < path.len() - 1
        invariant
            board.wf(),
            path@.len() >= 2,
            1 <= i <= path@.len() - 1,
            forall|j: int| 1 <= j < i ==> board@[#[trigger] path@[j].index()] is None,
        decreases path@.len() - i,
    {
        if board.cell(&path[i]).is_some() {
            return false;
        }
        i = i + 1;
    }
    true
}

/// After its start, the first occupied square of the path holds the enemy king.
pub open spec fn path_threat(path: Seq<Position>, piece: Piece, b: Seq<Option<Piece>>) -> bool {
    exists|k: int|
        1 <= k < path.len() && (b[#[trigger] path[k].index()] matches Some(o) && is_enemy_king(
            piece,
            o,
        )) && forall|j: int| 1 <= j < k ==> b[#[trigger] path[j].index()] is None
}

fn find_check_state_in_path(path: &Vec<Position>, piece: &Piece, board: &Board) -> (r: bool)
    requires
        board.wf(),
        path@.len() >= 1,
    ensures
        r == path_threat(path@, *piece, board@),
{
    let mut i: usize = 1;
    while i < path.len()
        invariant
            board.wf(),
            1 <= i <= path@.len(),
            forall|j: int| 1 <= j < i ==> board@[#[trigger] path@[j].index()] is None,
        decreases path@.len() - i,
    {
        match board.cell(&path[i]) {
            Some(other) => {
                let r = verify_check(piece, other);
                proof {
                    if !r {
                        assert forall|k: int|
                            1 <= k < path@.len() && (board@[#[trigger] path@[k].index()] matches Some(o) && is_enemy_king(*piece, o))
                            implies !(forall|j: int| 1 <= j < k ==> board@[#[trigger] path@[j].index()] is None) by {
                            if k > i {
                                assert(board@[path@[i as int].index()] is Some);
                            }
                        }
                    }
                }
                return r;
            },
            None => {},
        }
        i = i + 1;
    }
    false
}

/// A path traced to the board's edge sees exactly what the ray sees.
proof fn lemma_trace_threat(
    path: Seq<Position>,
    piece: Piece,
    b: Seq<Option<Piece>>,
    df: int,
    dr: int,
    limit: int,
)
    requires
        b.len() == 64,
        -1 <= df <= 1,
        -1 <= dr <= 1,
        is_trace(path, piece.position, df, dr, limit),
        forall|k: int| k > limit ==> !ray_on_board(piece.position, df, dr, k),
    ensures
        path_threat(path, piece, b) == ray_threat(piece, b, df, dr),
{
    let p = piece.position;
    assert forall|j: int| 0 <= j < path.len() implies #[trigger] path[j].index() == (p.rank() + walk(dr, j)) * 8 + p.file() + walk(df, j) by {}
    if path_threat(path, piece, b) {
        let k = choose|k: int|
            1 <= k < path.len() && (b[#[trigger] path[k].index()] matches Some(o) && is_enemy_king(
                piece,
                o,
            )) && forall|j: int| 1 <= j < k ==> b[#[trigger] path[j].index()] is None;
        assert(ray_at(b, p, df, dr, k) == b[path[k].index()]);
        assert forall|j: int| 1 <= j < k implies (#[trigger] ray_at(b, p, df, dr, j)) is None by {
            assert(ray_at(b, p, df, dr, j) == b[path[j].index()]);
        }
    }
    if ray_threat(piece, b, df, dr) {
        let k = choose|k: int|
            1 <= k && ray_on_board(p, df, dr, k) && (#[trigger] ray_at(b, p, df, dr, k) matches Some(
                o,
            ) && is_enemy_king(piece, o)) && forall|j: int|
                1 <= j < k ==> (#[trigger] ray_at(b, p, df, dr, j)) is None;
        assert(k < path.len());
        assert(ray_at(b, p, df, dr, k) == b[path[k].index()]);
        assert forall|j: int| 1 <= j < k implies b[#[trigger] path[j].index()] is None by {
            assert(ray_at(b, p, df, dr, j) == b[path[j].index()]);
        }
    }
}

/// A path traced from `from` towards `to` on a straight or diagonal line sees the
/// squares between them.
proof fn lemma_trace_clear(path: Seq<Position>, from: Position, to: Position, b: Seq<Option<Piece>>)
    requires
        b.len() == 64,
        is_trace(
            path,
            from,
            sgn(to.file() - from.file()),
            sgn(to.rank() - from.rank()),
            distance(from, to),
        ),
        distance(from, to) >= 1,
        to.file() == from.file() || to.rank() == from.rank() || abs(to.file() - from.file())
            == abs(to.rank() - from.rank()),
    ensures
        path.len() == distance(from, to) + 1,
        (forall|j: int| 1 <= j < path.len() - 1 ==> b[#[trigger] path[j].index()] is None)
            == path_clear(b, from, to),
{
    let df = sgn(to.file() - from.file());
    let dr = sgn(to.rank() - from.rank());
    let n = distance(from, to);
    if path.len() < n + 1 {
        let m = path.len() as int;
        assert(path[m - 1].file() == from.file() + walk(df, m - 1));
        assert(ray_on_board(from, df, dr, m));
    }
    assert forall|j: int| 0 <= j < path.len() implies #[trigger] path[j].index() == (from.rank() + walk(dr, j)) * 8 + from.file() + walk(df, j) by {}
    let fx = to.file() - from.file();
    let fy = to.rank() - from.rank();
    assert forall|j: int| 1 <= j < path.len() - 1 implies b[#[trigger] path[j].index()]
        == ray_at(b, from, fx, fy, j) by {}
    if path_clear(b, from, to) {
        assert forall|j: int| 1 <= j < path.len() - 1 implies b[#[trigger] path[j].index()] is None by {
            assert(ray_at(b, from, fx, fy, j) is None);
        }
    }
    if forall|j: int| 1 <= j < path.len() - 1 ==> b[#[trigger] path[j].index()] is None {
        assert forall|j: int| 1 <= j < distance(from, to) implies (#[trigger] ray_at(b, from, fx, fy, j)) is None by {
            assert(b[path[j].index()] is None);
        }
    }
}

} // verus!
