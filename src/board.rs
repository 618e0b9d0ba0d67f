use vstd::prelude::*;
use crate::common::ChessError::{EmptyCell, InvalidMove, WrongColor};
use crate::common::{ChessError, ChessResult, Color, StepResultData};
use crate::pieces::{
    can_move_spec, dest_same_color, icon_of, lemma_no_null_move, threatens, Piece, PieceType,
};
use crate::positions::{lemma_index_injective, Horizontal, Position, Vertical};

verus! {

/// The 64 squares of the board, stored rank by rank from the first rank, each
/// empty or holding one piece.
pub struct Board {
    cells: Vec<Option<Piece>>,
}

impl View for Board {
    type V = Seq<Option<Piece>>;

    closed spec fn view(&self) -> Seq<Option<Piece>> {
        self.cells@
    }
}

/// The kind of piece that starts on file `h` of a back rank.
pub open spec fn back_rank(h: Horizontal) -> PieceType {
    match h {
        Horizontal::HorA => PieceType::Rook,
        Horizontal::HorB => PieceType::Knight,
        Horizontal::HorC => PieceType::Bishop,
        Horizontal::HorD => PieceType::King,
        Horizontal::HorE => PieceType::Queen,
        Horizontal::HorF => PieceType::Bishop,
        Horizontal::HorG => PieceType::Knight,
        Horizontal::HorH => PieceType::Rook,
    }
}

/// What square `p` holds when a game starts: white on the first two ranks,
/// black on the last two.
pub open spec fn initial_piece(p: Position) -> Option<Piece> {
    let piece = |t: PieceType, c: Color| Some(Piece { piece_type: t, color: c, position: p, moved: false });
    match p.vert {
        Vertical::Vert1 => piece(back_rank(p.hor), Color::White),
        Vertical::Vert2 => piece(PieceType::Pawn, Color::White),
        Vertical::Vert7 => piece(PieceType::Pawn, Color::Black),
        Vertical::Vert8 => piece(back_rank(p.hor), Color::Black),
        _ => None,
    }
}

/// The piece on square `i` attacks the enemy king.
pub open spec fn attacker_at(b: Seq<Option<Piece>>, i: int) -> bool {
    b[i] matches Some(p) && threatens(p, b)
}

/// `piece` after it moved to `to`.
pub open spec fn moved_to(piece: Piece, to: Position) -> Piece {
    Piece { position: to, moved: true, ..piece }
}

/// The board after `piece` moved from `from` to `to`, taking what stood there.
pub open spec fn board_after(b: Seq<Option<Piece>>, piece: Piece, from: Position, to: Position) -> Seq<
    Option<Piece>,
> {
    b.update(from.index(), None).update(to.index(), Some(moved_to(piece, to)))
}

/// What a move reports: check by the mover if the moved piece now attacks the
/// enemy king, else the piece it took, if any.
pub open spec fn outcome(b: Seq<Option<Piece>>, piece: Piece, from: Position, to: Position) -> StepResultData {
    if threatens(moved_to(piece, to), board_after(b, piece, from, to)) {
        StepResultData::Check(piece.color)
    } else {
        match b[to.index()] {
            Some(taken) => StepResultData::Eaten(taken),
            None => StepResultData::Moved,
        }
    }
}

/// The move from `from` to `to` by `color` is allowed on board `b`.
pub open spec fn move_allowed(b: Seq<Option<Piece>>, from: Position, to: Position, color: Color) -> bool {
    b[from.index()] matches Some(piece) && piece.color == color && can_move_spec(piece, to, b)
        && !dest_same_color(piece, to, b)
}

/// When a move reports check, the board it leaves is in check: the moved piece
/// is one that attacks the enemy king.
pub proof fn lemma_check_is_seen(b: Seq<Option<Piece>>, from: Position, to: Position, color: Color)
    requires
        b.len() == 64,
        move_allowed(b, from, to, color),
        outcome(b, b[from.index()]->Some_0, from, to) is Check,
    ensures
        exists|i: int| 0 <= i < 64 && attacker_at(board_after(b, b[from.index()]->Some_0, from, to), i),
{
    let after = board_after(b, b[from.index()]->Some_0, from, to);
    assert(attacker_at(after, to.index()));
}

impl Board {
    /// 64 squares, and each piece stands on the square whose slot holds it.
    pub open spec fn wf(&self) -> bool {
        &&& self@.len() == 64
        &&& forall|i: int|
            0 <= i < 64 ==> ((#[trigger] self@[i]) matches Some(p) ==> p.position.index() == i)
    }

    /// The board as a game starts.
    pub fn new() -> (r: Board)
        ensures
            r.wf(),
            forall|p: Position| r@[#[trigger] p.index()] == initial_piece(p),
    {
        let mut board = Board { cells: Vec::new() };
        Board::fill_board(&mut board);
        board
    }

    /// A board with no pieces.
    pub fn empty() -> (r: Board)
        ensures
            r.wf(),
            forall|i: int| 0 <= i < 64 ==> r@[i] is None,
    {
        let mut cells: Vec<Option<Piece>> = Vec::new();
        let mut i: usize = 0;
        while i < 64
            invariant
                i <= 64,
                cells@.len() == i,
                forall|j: int| 0 <= j < i ==> cells@[j] is None,
            decreases 64 - i,
        {
            cells.push(None);
            i = i + 1;
        }
        Board { cells }
    }

    /// Puts `piece` on its square, in place of what stood there.
    pub fn place(&mut self, piece: Piece)
        requires
            old(self).wf(),
        ensures
            final(self).wf(),
            final(self)@ == old(self)@.update(piece.position.index(), Some(piece)),
    {
        let i = piece.position.cell_index();
        self.cells.set(i, Some(piece));
    }

    pub fn cell(&self, position: &Position) -> (r: &Option<Piece>)
        requires
            self.wf(),
        ensures
            *r == self@[position.index()],
    {
        &self.cells[position.cell_index()]
    }

    /// Moves the piece on `from` to `to` for the player of `color`.
    ///
    /// Fails, and leaves the board as it was, when `from` is empty, holds a piece
    /// of the other color, or the piece may not move to `to`.
    pub fn move_piece(&mut self, from: &Position, to: &Position, color: Color) -> (r: ChessResult<
        StepResultData,
    >)
        requires
            old(self).wf(),
        ensures
            final(self).wf(),
            r is Err ==> final(self)@ == old(self)@,
            old(self)@[from.index()] is None ==> (r matches Err(EmptyCell(p)) && p == *from),
            old(self)@[from.index()] matches Some(piece) && piece.color != color ==> (r matches Err(
                WrongColor(p),
            ) && p == *from),
            old(self)@[from.index()] matches Some(piece) && piece.color == color
                && !move_allowed(old(self)@, *from, *to, color) ==> (r matches Err(
                InvalidMove(a, b),
            ) && a == *from && b == *to),
            move_allowed(old(self)@, *from, *to, color) ==> (old(self)@[from.index()] matches Some(
                piece,
            ) && final(self)@ == board_after(old(self)@, piece, *from, *to) && r == Ok::<
                StepResultData,
                ChessError,
            >(outcome(old(self)@, piece, *from, *to))),
            r is Ok ==> (final(self)@[to.index()] matches Some(p) && p.position == *to
                && final(self)@[from.index()] is None),
    {
        let piece = match self.cell(from) {
            Some(p) => *p,
            None => {
                return Err(EmptyCell(*from));
            },
        };
        if piece.color != color {
            return Err(WrongColor(*from));
        }
        if !piece.can_move(to, self) {
            return Err(InvalidMove(*from, *to));
        }
        match self.cell(to) {
            Some(other) => {
                if color == other.color {
                    return Err(InvalidMove(*from, *to));
                }
            },
            None => {},
        }
        let ghost piece_before = piece;
        proof {
            lemma_no_null_move(piece, self@);
            lemma_index_injective(*from, *to);
        }
        let mut raw_result = match self.extract_piece(to) {
            Some(eaten) => StepResultData::Eaten(eaten),
            None => StepResultData::Moved,
        };
        let mut piece = match self.extract_piece(from) {
            Some(p) => p,
            None => {
                return Err(EmptyCell(*from));
            },
        };
        piece.mark_as_moved();
        piece.position = *to;
        self.cells.set(to.cell_index(), Some(piece));
        proof {
            assert(self@ =~= board_after(old(self)@, piece_before, *from, *to));
        }
        if piece.is_enemy_in_check(self) {
            raw_result = StepResultData::Check(piece.color);
        }
        Ok(raw_result)
    }

    /// The color whose king is attacked, found by looking at the squares rank
    /// by rank from the first rank: the opponent of the first piece that attacks
    /// the enemy king.
    pub fn is_in_check_state(&self) -> (r: Option<Color>)
        requires
            self.wf(),
        ensures
            r is None <==> forall|i: int| 0 <= i < 64 ==> !attacker_at(self@, i),
            r matches Some(c) ==> exists|i: int|
                0 <= i < 64 && attacker_at(self@, i) && c == self@[i]->Some_0.color.opposite()
                    && forall|j: int| 0 <= j < i ==> !attacker_at(self@, j),
    {
        let mut i: usize = 0;
        while i < 64
            invariant
                self.wf(),
                i <= 64,
                forall|j: int| 0 <= j < i ==> !attacker_at(self@, j),
            decreases 64 - i,
        {
            match &self.cells[i] {
                Some(piece) => {
                    if piece.is_enemy_in_check(self) {
                        proof {
                            assert(attacker_at(self@, i as int));
                        }
                        return Some(std::ops::Not::not(piece.color));
                    }
                },
                None => {},
            }
            i = i + 1;
        }
        None
    }

    fn extract_piece(&mut self, position: &Position) -> (r: Option<Piece>)
        requires
            old(self).wf(),
        ensures
            final(self).wf(),
            r == old(self)@[position.index()],
            final(self)@ == old(self)@.update(position.index(), None),
    {
        let i = position.cell_index();
        let r = self.cells[i];
        self.cells.set(i, None);
        r
    }

    /// The symbol of what stands on rank `i`, file `j` (counted from 0), or a
    /// space.
    pub fn piece_icon(&self, i: usize, j: usize) -> (r: char)
        requires
            self.wf(),
            i < 8,
            j < 8,
        ensures
            r == match self@[i * 8 + j] {
                Some(p) => icon_of(p.piece_type, p.color),
                None => ' ',
            },
    {
        match &self.cells[i * 8 + j] {
            Some(piece) => piece.icon(),
            None => ' ',
        }
    }

    fn fill_board(board: &mut Board)
        requires
            old(board)@.len() == 0,
        ensures
            final(board).wf(),
            forall|p: Position| final(board)@[#[trigger] p.index()] == initial_piece(p),
    {
        let mut i: i8 = 0;
        while i < 8
            invariant
                0 <= i <= 8,
                board@.len() == i * 8,
                forall|k: int|
                    0 <= k < board@.len() ==> ((#[trigger] board@[k]) matches Some(p)
                        ==> p.position.index() == k),
                forall|p: Position|
                    #[trigger] p.index() < board@.len() ==> board@[p.index()] == initial_piece(p),
            decreases 8 - i,
        {
            let mut j: i8 = 0;
            while j < 8
                invariant
                    0 <= i < 8,
                    0 <= j <= 8,
                    board@.len() == i * 8 + j,
                    forall|k: int|
                        0 <= k < board@.len() ==> ((#[trigger] board@[k]) matches Some(p)
                            ==> p.position.index() == k),
                    forall|p: Position|
                        #[trigger] p.index() < board@.len() ==> board@[p.index()] == initial_piece(
                            p,
                        ),
                decreases 8 - j,
            {
                let position = Position::at(j, i).unwrap();
                board.cells.push(initial_cell(position));
                j = j + 1;
            }
            i = i + 1;
        }
    }
}

fn initial_cell(position: Position) -> (r: Option<Piece>)
    ensures
        r == initial_piece(position),
{
    match position.vert {
        Vertical::Vert1 => Some(Piece::new(back_rank_type(position.hor), Color::White, position)),
        Vertical::Vert2 => Some(Piece::new(PieceType::Pawn, Color::White, position)),
        Vertical::Vert7 => Some(Piece::new(PieceType::Pawn, Color::Black, position)),
        Vertical::Vert8 => Some(Piece::new(back_rank_type(position.hor), Color::Black, position)),
        _ => None,
    }
}

fn back_rank_type(h: Horizontal) -> (r: PieceType)
    ensures
        r == back_rank(h),
{
    match h {
        Horizontal::HorA => PieceType::Rook,
        Horizontal::HorB => PieceType::Knight,
        Horizontal::HorC => PieceType::Bishop,
        Horizontal::HorD => PieceType::King,
        Horizontal::HorE => PieceType::Queen,
        Horizontal::HorF => PieceType::Bishop,
        Horizontal::HorG => PieceType::Knight,
        Horizontal::HorH => PieceType::Rook,
    }
}

} // verus!
