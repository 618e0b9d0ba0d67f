use vstd::prelude::*;
use crate::common::ChessError;
use crate::common::ChessError::InvalidPosition;
use crate::wire::Cell;

verus! {

// ASCII codes of the characters that a square's name may hold.
const UPPER_A: u8 = 65;
const UPPER_H: u8 = 72;
const LOWER_A: u8 = 97;
const LOWER_H: u8 = 104;
const DIGIT_1: u8 = 49;
const DIGIT_8: u8 = 56;

/// A file of the board, from `A` to `H`.
#[derive(Debug, Copy, Clone, PartialEq, Eq, Structural)]
pub enum Horizontal {
    HorA,
    HorB,
    HorC,
    HorD,
    HorE,
    HorF,
    HorG,
    HorH,
}

/// A rank of the board, from `1` to `8`.
#[derive(Debug, Copy, Clone, PartialEq, Eq, Structural)]
pub enum Vertical {
    Vert1,
    Vert2,
    Vert3,
    Vert4,
    Vert5,
    Vert6,
    Vert7,
    Vert8,
}

/// Whether `(f, r)` names a square of the board.
pub open spec fn on_board(f: int, r: int) -> bool {
    0 <= f < 8 && 0 <= r < 8
}

pub open spec fn is_file_char(c: char) -> bool {
    ('A' <= c && c <= 'H') || ('a' <= c && c <= 'h')
}

pub open spec fn is_rank_char(c: char) -> bool {
    '1' <= c && c <= '8'
}

/// The file that a letter names, either case.
pub open spec fn file_of_char(c: char) -> int {
    if c <= 'H' {
        c as int - 'A' as int
    } else {
        c as int - 'a' as int
    }
}

pub open spec fn rank_of_char(c: char) -> int {
    c as int - '1' as int
}

/// Two characters: a file letter, then a rank digit.
pub open spec fn is_name(s: Seq<char>) -> bool {
    s.len() == 2 && is_file_char(s[0]) && is_rank_char(s[1])
}

impl Horizontal {
    pub open spec fn value(self) -> int {
        match self {
            Horizontal::HorA => 0,
            Horizontal::HorB => 1,
            Horizontal::HorC => 2,
            Horizontal::HorD => 3,
            Horizontal::HorE => 4,
            Horizontal::HorF => 5,
            Horizontal::HorG => 6,
            Horizontal::HorH => 7,
        }
    }

    /// The upper-case letter of the file.
    pub open spec fn letter(self) -> char {
        match self {
            Horizontal::HorA => 'A',
            Horizontal::HorB => 'B',
            Horizontal::HorC => 'C',
            Horizontal::HorD => 'D',
            Horizontal::HorE => 'E',
            Horizontal::HorF => 'F',
            Horizontal::HorG => 'G',
            Horizontal::HorH => 'H',
        }
    }

    pub fn to_u8(self) -> (r: u8)
        ensures
            r as int == self.value(),
    {
        match self {
            Horizontal::HorA => 0,
            Horizontal::HorB => 1,
            Horizontal::HorC => 2,
            Horizontal::HorD => 3,
            Horizontal::HorE => 4,
            Horizontal::HorF => 5,
            Horizontal::HorG => 6,
            Horizontal::HorH => 7,
        }
    }

    /// The file with the given number, if there is one.
    pub fn from_i8(i: i8) -> (r: Option<Horizontal>)
        ensures
            r is Some <==> 0 <= i < 8,
            r matches Some(h) ==> h.value() == i,
    {
        match i {
            0 => Some(Horizontal::HorA),
            1 => Some(Horizontal::HorB),
            2 => Some(Horizontal::HorC),
            3 => Some(Horizontal::HorD),
            4 => Some(Horizontal::HorE),
            5 => Some(Horizontal::HorF),
            6 => Some(Horizontal::HorG),
            7 => Some(Horizontal::HorH),
            _ => None,
        }
    }
}

impl Vertical {
    pub open spec fn value(self) -> int {
        match self {
            Vertical::Vert1 => 0,
            Vertical::Vert2 => 1,
            Vertical::Vert3 => 2,
            Vertical::Vert4 => 3,
            Vertical::Vert5 => 4,
            Vertical::Vert6 => 5,
            Vertical::Vert7 => 6,
            Vertical::Vert8 => 7,
        }
    }

    /// The digit of the rank.
    pub open spec fn digit(self) -> char {
        match self {
            Vertical::Vert1 => '1',
            Vertical::Vert2 => '2',
            Vertical::Vert3 => '3',
            Vertical::Vert4 => '4',
            Vertical::Vert5 => '5',
            Vertical::Vert6 => '6',
            Vertical::Vert7 => '7',
            Vertical::Vert8 => '8',
        }
    }

    pub fn to_u8(self) -> (r: u8)
        ensures
            r as int == self.value(),
    {
        match self {
            Vertical::Vert1 => 0,
            Vertical::Vert2 => 1,
            Vertical::Vert3 => 2,
            Vertical::Vert4 => 3,
            Vertical::Vert5 => 4,
            Vertical::Vert6 => 5,
            Vertical::Vert7 => 6,
            Vertical::Vert8 => 7,
        }
    }

    /// The rank with the given number, if there is one.
    pub fn from_i8(i: i8) -> (r: Option<Vertical>)
        ensures
            r is Some <==> 0 <= i < 8,
            r matches Some(v) ==> v.value() == i,
    {
        match i {
            0 => Some(Vertical::Vert1),
            1 => Some(Vertical::Vert2),
            2 => Some(Vertical::Vert3),
            3 => Some(Vertical::Vert4),
            4 => Some(Vertical::Vert5),
            5 => Some(Vertical::Vert6),
            6 => Some(Vertical::Vert7),
            7 => Some(Vertical::Vert8),
            _ => None,
        }
    }
}

/// A square of the board.
#[derive(Debug, Copy, Clone, PartialEq, Eq, Structural)]
pub struct Position {
    pub hor: Horizontal,
    pub vert: Vertical,
}

/// The squares on the same file and rank are the same square.
pub proof fn lemma_position_eq(p: Position, q: Position)
    ensures
        (p.file() == q.file() && p.rank() == q.rank()) <==> p == q,
{
}

/// Distinct squares have distinct slots.
pub proof fn lemma_index_injective(p: Position, q: Position)
    ensures
        p.index() == q.index() <==> p == q,
{
}

impl Position {
    /// The file, from 0 (`A`) to 7 (`H`).
    pub open spec fn file(self) -> int {
        self.hor.value()
    }

    /// The rank, from 0 (`1`) to 7 (`8`).
    pub open spec fn rank(self) -> int {
        self.vert.value()
    }

    /// The square's slot in a board stored rank by rank, from the first rank.
    pub open spec fn index(self) -> int {
        self.rank() * 8 + self.file()
    }

    /// The square in algebraic notation: upper-case file letter, then rank digit.
    pub open spec fn name(self) -> Seq<char> {
        seq![self.hor.letter(), self.vert.digit()]
    }

    /// The square that a name in algebraic notation stands for.
    pub open spec fn named(s: Seq<char>) -> Position
        recommends
            is_name(s),
    {
        choose|p: Position| p.file() == file_of_char(s[0]) && p.rank() == rank_of_char(s[1])
    }

    pub fn cell_index(&self) -> (r: usize)
        ensures
            r as int == self.index(),
            r < 64,
    {
        (self.vert.to_u8() as usize) * 8 + self.hor.to_u8() as usize
    }

    pub fn from_proto(cell: &Cell) -> (r: Option<Position>)
        ensures
            r is Some <==> is_name(cell.name@),
            r matches Some(p) ==> p == Position::named(cell.name@),
    {
        match Position::parse(cell.name.as_str()) {
            Ok(p) => Some(p),
            Err(_) => None,
        }
    }

    /// The square at file `hor` and rank `vert`, if both are on the board.
    pub fn at(hor: i8, vert: i8) -> (r: Option<Position>)
        ensures
            r is Some <==> on_board(hor as int, vert as int),
            r matches Some(p) ==> p.file() == hor && p.rank() == vert,
    {
        match (Horizontal::from_i8(hor), Vertical::from_i8(vert)) {
            (Some(hor), Some(vert)) => Some(Position { hor, vert }),
            _ => None,
        }
    }

    /// The square shifted by the given numbers of files and ranks, if it is on the board.
    pub fn transform(&self, hor_diff: i8, vert_diff: i8) -> (r: Option<Position>)
        ensures
            r is Some <==> on_board(self.file() + hor_diff, self.rank() + vert_diff),
            r matches Some(p) ==> p.file() == self.file() + hor_diff && p.rank() == self.rank()
                + vert_diff,
    {
        let h: i16 = self.hor.to_u8() as i16 + hor_diff as i16;
        let v: i16 = self.vert.to_u8() as i16 + vert_diff as i16;
        if 0 <= h && h < 8 && 0 <= v && v < 8 {
            Position::at(h as i8, v as i8)
        } else {
            None
        }
    }

    /// The files and ranks from `other` to `self`.
    pub fn difference(&self, other: &Position) -> (r: (i8, i8))
        ensures
            r.0 == self.file() - other.file(),
            r.1 == self.rank() - other.rank(),
    {
        (
            self.hor.to_u8() as i8 - other.hor.to_u8() as i8,
            self.vert.to_u8() as i8 - other.vert.to_u8() as i8,
        )
    }

    /// Reads a square in algebraic notation; the file letter may be of either case.
    pub fn parse(s: &str) -> (r: Result<Position, ChessError>)
        ensures
            r is Ok <==> is_name(s@),
            r matches Ok(p) ==> p.file() == file_of_char(s@[0]) && p.rank() == rank_of_char(
                s@[1],
            ),
            r matches Err(e) ==> (e matches InvalidPosition(t) && t@ == s@),
    {
        broadcast use vstd::string::is_ascii_spec_bytes;

        if !s.is_ascii() {
            return Err(InvalidPosition(s.to_owned()));
        }
        let bytes = s.as_bytes();
        if bytes.len() != 2 {
            return Err(InvalidPosition(s.to_owned()));
        }
        let h: u8 = bytes[0];
        let v: u8 = bytes[1];
        let file: i8 = if UPPER_A <= h && h <= UPPER_H {
            (h - UPPER_A) as i8
        } else if LOWER_A <= h && h <= LOWER_H {
            (h - LOWER_A) as i8
        } else {
            return Err(InvalidPosition(s.to_owned()));
        };
        let rank: i8 = if DIGIT_1 <= v && v <= DIGIT_8 {
            (v - DIGIT_1) as i8
        } else {
            return Err(InvalidPosition(s.to_owned()));
        };
        match Position::at(file, rank) {
            Some(p) => Ok(p),
            None => Err(InvalidPosition(s.to_owned())),
        }
    }

    /// The square in algebraic notation.
    pub fn to_name(&self) -> (r: String)
        ensures
            r@ == self.name(),
    {
        let letter = match self.hor {
            Horizontal::HorA => "A",
            Horizontal::HorB => "B",
            Horizontal::HorC => "C",
            Horizontal::HorD => "D",
            Horizontal::HorE => "E",
            Horizontal::HorF => "F",
            Horizontal::HorG => "G",
            Horizontal::HorH => "H",
        };
        let digit = match self.vert {
            Vertical::Vert1 => "1",
            Vertical::Vert2 => "2",
            Vertical::Vert3 => "3",
            Vertical::Vert4 => "4",
            Vertical::Vert5 => "5",
            Vertical::Vert6 => "6",
            Vertical::Vert7 => "7",
            Vertical::Vert8 => "8",
        };
        proof {
            reveal_strlit("A");
            reveal_strlit("B");
            reveal_strlit("C");
            reveal_strlit("D");
            reveal_strlit("E");
            reveal_strlit("F");
            reveal_strlit("G");
            reveal_strlit("H");
            reveal_strlit("1");
            reveal_strlit("2");
            reveal_strlit("3");
            reveal_strlit("4");
            reveal_strlit("5");
            reveal_strlit("6");
            reveal_strlit("7");
            reveal_strlit("8");
        }
        let r = String::from_str(letter).concat(digit);
        r
    }
}

/// Writing a square out and reading it back gives the same square; the name
/// that is written is always one that reading accepts.
pub proof fn lemma_name_round_trip(p: Position)
    ensures
        is_name(p.name()),
        p.file() == file_of_char(p.name()[0]),
        p.rank() == rank_of_char(p.name()[1]),
        Position::named(p.name()) == p,
{
    let q = Position::named(p.name());
    assert(p.file() == file_of_char(p.name()[0]) && p.rank() == rank_of_char(p.name()[1]));
    lemma_position_eq(p, q);
}

impl std::str::FromStr for Position {
    type Err = ChessError;

    fn from_str(s: &str) -> Result<Self, Self::Err> {
        Position::parse(s)
    }
}

} // verus!
