//! The scalar types of the board model: colors, piece kinds, ray
//! directions and squares.

use vstd::prelude::*;
use crate::bitboard::Bitboard;

verus! {

/// The two sides.
#[derive(Clone, Copy, Debug, PartialEq, Eq, Structural)]
pub enum Color {
    White,
    Black,
}

impl Color {
    /// The other side.
    pub open spec fn opp(self) -> Color {
        match self {
            Color::White => Color::Black,
            Color::Black => Color::White,
        }
    }

    /// Returns the opposing color.
    pub fn op(&self) -> (c: Color)
        ensures
            c == self.opp(),
    {
        match self {
            Color::White => Color::Black,
            Color::Black => Color::White,
        }
    }
}

/// The six piece kinds.
#[derive(Clone, Copy, Debug, PartialEq, Eq, Structural)]
pub enum Piece {
    Pawn,
    Knight,
    Bishop,
    Rook,
    Queen,
    King,
}

/// A piece together with its color.
#[derive(Clone, Copy, Debug, PartialEq, Eq, Structural)]
pub struct CPiece(pub Piece, pub Color);

/// The eight cardinal and diagonal directions.
#[derive(Clone, Copy, Debug, PartialEq, Eq, Structural)]
pub enum Dir {
    Nort,
    Noea,
    East,
    Soea,
    Sout,
    Sowe,
    West,
    Nowe,
}

impl Dir {
    /// The change in square index from one step in this direction.
    pub open spec fn delta(self) -> int {
        match self {
            Dir::Nort => 8,
            Dir::Noea => 9,
            Dir::East => 1,
            Dir::Soea => -7,
            Dir::Sout => -8,
            Dir::Sowe => -9,
            Dir::West => -1,
            Dir::Nowe => 7,
        }
    }

    /// True iff one step in this direction lowers the square index.
    pub fn neg(&self) -> (r: bool)
        ensures
            r == (self.delta() < 0),
    {
        match *self {
            Dir::West | Dir::Sout | Dir::Sowe | Dir::Soea => true,
            _ => false,
        }
    }

    /// True iff one step in this direction raises the square index.
    pub fn pos(&self) -> (r: bool)
        ensures
            r == (self.delta() > 0),
    {
        match *self {
            Dir::West | Dir::Sout | Dir::Sowe | Dir::Soea => false,
            _ => true,
        }
    }
}

/// The 64 board squares in Little-Endian Rank-File order: A1 = 0, H8 = 63.
#[derive(Clone, Copy, Debug, PartialEq, Eq, Structural)]
pub enum Square {
    A1, B1, C1, D1, E1, F1, G1, H1,
    A2, B2, C2, D2, E2, F2, G2, H2,
    A3, B3, C3, D3, E3, F3, G3, H3,
    A4, B4, C4, D4, E4, F4, G4, H4,
    A5, B5, C5, D5, E5, F5, G5, H5,
    A6, B6, C6, D6, E6, F6, G6, H6,
    A7, B7, C7, D7, E7, F7, G7, H7,
    A8, B8, C8, D8, E8, F8, G8, H8,
}

impl Square {
    /// The square's index: file + 8 * rank.
    pub open spec fn index_of(self) -> u64 {
        match self {
            Square::A1 => 0,
            Square::B1 => 1,
            Square::C1 => 2,
            Square::D1 => 3,
            Square::E1 => 4,
            Square::F1 => 5,
            Square::G1 => 6,
            Square::H1 => 7,
            Square::A2 => 8,
            Square::B2 => 9,
            Square::C2 => 10,
            Square::D2 => 11,
            Square::E2 => 12,
            Square::F2 => 13,
            Square::G2 => 14,
            Square::H2 => 15,
            Square::A3 => 16,
            Square::B3 => 17,
            Square::C3 => 18,
            Square::D3 => 19,
            Square::E3 => 20,
            Square::F3 => 21,
            Square::G3 => 22,
            Square::H3 => 23,
            Square::A4 => 24,
            Square::B4 => 25,
            Square::C4 => 26,
            Square::D4 => 27,
            Square::E4 => 28,
            Square::F4 => 29,
            Square::G4 => 30,
            Square::H4 => 31,
            Square::A5 => 32,
            Square::B5 => 33,
            Square::C5 => 34,
            Square::D5 => 35,
            Square::E5 => 36,
            Square::F5 => 37,
            Square::G5 => 38,
            Square::H5 => 39,
            Square::A6 => 40,
            Square::B6 => 41,
            Square::C6 => 42,
            Square::D6 => 43,
            Square::E6 => 44,
            Square::F6 => 45,
            Square::G6 => 46,
            Square::H6 => 47,
            Square::A7 => 48,
            Square::B7 => 49,
            Square::C7 => 50,
            Square::D7 => 51,
            Square::E7 => 52,
            Square::F7 => 53,
            Square::G7 => 54,
            Square::H7 => 55,
            Square::A8 => 56,
            Square::B8 => 57,
            Square::C8 => 58,
            Square::D8 => 59,
            Square::E8 => 60,
            Square::F8 => 61,
            Square::G8 => 62,
            Square::H8 => 63,
        }
    }

    /// Returns the square's index, a value below 64.
    pub fn index(&self) -> (i: u8)
        ensures
            i as u64 == self.index_of(),
            i < 64,
    {
        match *self {
            Square::A1 => 0,
            Square::B1 => 1,
            Square::C1 => 2,
            Square::D1 => 3,
            Square::E1 => 4,
            Square::F1 => 5,
            Square::G1 => 6,
            Square::H1 => 7,
            Square::A2 => 8,
            Square::B2 => 9,
            Square::C2 => 10,
            Square::D2 => 11,
            Square::E2 => 12,
            Square::F2 => 13,
            Square::G2 => 14,
            Square::H2 => 15,
            Square::A3 => 16,
            Square::B3 => 17,
            Square::C3 => 18,
            Square::D3 => 19,
            Square::E3 => 20,
            Square::F3 => 21,
            Square::G3 => 22,
            Square::H3 => 23,
            Square::A4 => 24,
            Square::B4 => 25,
            Square::C4 => 26,
            Square::D4 => 27,
            Square::E4 => 28,
            Square::F4 => 29,
            Square::G4 => 30,
            Square::H4 => 31,
            Square::A5 => 32,
            Square::B5 => 33,
            Square::C5 => 34,
            Square::D5 => 35,
            Square::E5 => 36,
            Square::F5 => 37,
            Square::G5 => 38,
            Square::H5 => 39,
            Square::A6 => 40,
            Square::B6 => 41,
            Square::C6 => 42,
            Square::D6 => 43,
            Square::E6 => 44,
            Square::F6 => 45,
            Square::G6 => 46,
            Square::H6 => 47,
            Square::A7 => 48,
            Square::B7 => 49,
            Square::C7 => 50,
            Square::D7 => 51,
            Square::E7 => 52,
            Square::F7 => 53,
            Square::G7 => 54,
            Square::H7 => 55,
            Square::A8 => 56,
            Square::B8 => 57,
            Square::C8 => 58,
            Square::D8 => 59,
            Square::E8 => 60,
            Square::F8 => 61,
            Square::G8 => 62,
            Square::H8 => 63,
        }
    }

    /// Returns the square with the given index.
    pub fn from_index(i: u8) -> (s: Square)
        requires
            i < 64,
        ensures
            s.index_of() == i as u64,
    {
        match i {
            0 => Square::A1,
            1 => Square::B1,
            2 => Square::C1,
            3 => Square::D1,
            4 => Square::E1,
            5 => Square::F1,
            6 => Square::G1,
            7 => Square::H1,
            8 => Square::A2,
            9 => Square::B2,
            10 => Square::C2,
            11 => Square::D2,
            12 => Square::E2,
            13 => Square::F2,
            14 => Square::G2,
            15 => Square::H2,
            16 => Square::A3,
            17 => Square::B3,
            18 => Square::C3,
            19 => Square::D3,
            20 => Square::E3,
            21 => Square::F3,
            22 => Square::G3,
            23 => Square::H3,
            24 => Square::A4,
            25 => Square::B4,
            26 => Square::C4,
            27 => Square::D4,
            28 => Square::E4,
            29 => Square::F4,
            30 => Square::G4,
            31 => Square::H4,
            32 => Square::A5,
            33 => Square::B5,
            34 => Square::C5,
            35 => Square::D5,
            36 => Square::E5,
            37 => Square::F5,
            38 => Square::G5,
            39 => Square::H5,
            40 => Square::A6,
            41 => Square::B6,
            42 => Square::C6,
            43 => Square::D6,
            44 => Square::E6,
            45 => Square::F6,
            46 => Square::G6,
            47 => Square::H6,
            48 => Square::A7,
            49 => Square::B7,
            50 => Square::C7,
            51 => Square::D7,
            52 => Square::E7,
            53 => Square::F7,
            54 => Square::G7,
            55 => Square::H7,
            56 => Square::A8,
            57 => Square::B8,
            58 => Square::C8,
            59 => Square::D8,
            60 => Square::E8,
            61 => Square::F8,
            62 => Square::G8,
            _ => Square::H8,
        }
    }

    /// Returns a bitboard with a one on this square and zeroes elsewhere.
    pub fn as_bitboard(&self) -> (b: Bitboard)
        ensures
            b.0 == 1u64 << self.index_of(),
    {
        let i = self.index();
        Bitboard(1u64 << i)
    }

    /// Returns `Some(s)` if a square lies `steps` index steps away in
    /// direction `dir`, otherwise `None`. The walk is over raw indices, so
    /// an east or west walk wraps between files at a rank boundary.
    pub fn translate(&self, dir: Dir, steps: i32) -> (r: Option<Square>)
        ensures
            ({
                let target = self.index_of() + dir.delta() * steps;
                match r {
                    Some(s) => 0 <= target < 64 && s.index_of() == target,
                    None => !(0 <= target < 64),
                }
            }),
    {
        let amount: i64 = match dir {
            Dir::Nort => 8,
            Dir::Noea => 9,
            Dir::East => 1,
            Dir::Soea => -7,
            Dir::Sout => -8,
            Dir::Sowe => -9,
            Dir::West => -1,
            Dir::Nowe => 7,
        };
        assert(-9 <= amount && amount <= 9 && amount == dir.delta());
        let far: i64 = steps as i64;
        assert(-0x14_0000_0000 <= amount * far && amount * far <= 0x14_0000_0000)
            by (nonlinear_arith)
            requires
                -9 <= amount <= 9 && -0x8000_0000 <= far <= 0x8000_0000,
        ;
        let target: i64 = self.index() as i64 + amount * far;
        if 0 <= target && target < 64 {
            Some(Square::from_index(target as u8))
        } else {
            None
        }
    }
}

} // verus!
