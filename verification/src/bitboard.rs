//! A 64-bit set of squares, with the directional one-step shifts that the
//! attack engine is built from.

use vstd::prelude::*;
use crate::bits::{bit64, pop64, lemma_bit_ops};
use crate::utils::Square;

verus! {

/// Ones everywhere except the a-file.
pub const NOT_A_FILE: u64 = 0xfe_fe_fe_fe_fe_fe_fe_fe;

/// Ones everywhere except the h-file.
pub const NOT_H_FILE: u64 = 0x7f_7f_7f_7f_7f_7f_7f_7f;

/// The fourth rank.
pub const RANK4: u64 = 0x00_00_00_00_ff_00_00_00;

/// The fifth rank.
pub const RANK5: u64 = 0x00_00_00_ff_00_00_00_00;

/// The first and eighth ranks.
pub const RANK_1_AND_8: u64 = 0xff_00_00_00_00_00_00_ff;

/// The second rank.
pub const RANK2: u64 = 0x00_00_00_00_00_00_ff_00;

/// The seventh rank.
pub const RANK7: u64 = 0x00_ff_00_00_00_00_00_00;

/// Pawn placement of both sides in the starting position.
pub const PAWN_START: u64 = 0x00_ff_00_00_00_00_ff_00;

/// Knight placement of both sides in the starting position.
pub const KNIGHT_START: u64 = 0x42_00_00_00_00_00_00_42;

/// Bishop placement of both sides in the starting position.
pub const BISHOP_START: u64 = 0x24_00_00_00_00_00_00_24;

/// Rook placement of both sides in the starting position.
pub const ROOK_START: u64 = 0x81_00_00_00_00_00_00_81;

/// Queen placement of both sides in the starting position.
pub const QUEEN_START: u64 = 0x08_00_00_00_00_00_00_08;

/// King placement of both sides in the starting position.
pub const KING_START: u64 = 0x10_00_00_00_00_00_00_10;

/// All white pieces in the starting position.
pub const WHITE_START: u64 = 0x00_00_00_00_00_00_ff_ff;

/// All black pieces in the starting position.
pub const BLACK_START: u64 = 0xff_ff_00_00_00_00_00_00;

/// The empty squares of the starting position.
pub const EMPTY_START: u64 = 0x00_00_ff_ff_ff_ff_00_00;

/// The occupied squares of the starting position.
pub const OCCUPIED_START: u64 = 0xff_ff_00_00_00_00_ff_ff;

/// A set of squares, one bit per square in Little-Endian Rank-File order.
#[derive(Clone, Copy, Debug, PartialEq, Eq, Structural)]
pub struct Bitboard(pub u64);

/// One step south: every square moves down a rank.
pub open spec fn sout_one_spec(b: u64) -> u64 {
    b >> 8
}

/// One step north: every square moves up a rank.
pub open spec fn nort_one_spec(b: u64) -> u64 {
    b << 8
}

/// One step east, dropping squares that would wrap onto the a-file.
pub open spec fn east_one_spec(b: u64) -> u64 {
    (b << 1) & NOT_A_FILE
}

/// One step west, dropping squares that would wrap onto the h-file.
pub open spec fn west_one_spec(b: u64) -> u64 {
    (b >> 1) & NOT_H_FILE
}

/// One step northeast, with the same wrap guard as east.
pub open spec fn noea_one_spec(b: u64) -> u64 {
    (b << 9) & NOT_A_FILE
}

/// One step southeast, with the same wrap guard as east.
pub open spec fn soea_one_spec(b: u64) -> u64 {
    (b >> 7) & NOT_A_FILE
}

/// One step southwest, with the same wrap guard as west.
pub open spec fn sowe_one_spec(b: u64) -> u64 {
    (b >> 9) & NOT_H_FILE
}

/// One step northwest, with the same wrap guard as west.
pub open spec fn nowe_one_spec(b: u64) -> u64 {
    (b << 7) & NOT_H_FILE
}

/// The character at position `p` of the rendered diagram: rows of
/// seventeen characters, the eighth rank first, each cell two characters
/// wide.
pub open spec fn diagram_char(bb: u64, p: int) -> char {
    let row = p / 17;
    let col = p % 17;
    if col == 16 {
        '\n'
    } else if col % 2 == 1 {
        ' '
    } else if bit64(bb, ((7 - row) * 8 + col / 2) as u64) {
        '1'
    } else {
        '.'
    }
}

impl Bitboard {
    /// Shifts the bitboard `b` south one rank.
    pub fn sout_one(b: Bitboard) -> (r: Bitboard)
        ensures
            r.0 == sout_one_spec(b.0),
    {
        Bitboard(b.0 >> 8)
    }

    /// Shifts the bitboard `b` north one rank.
    pub fn nort_one(b: Bitboard) -> (r: Bitboard)
        ensures
            r.0 == nort_one_spec(b.0),
    {
        Bitboard(b.0 << 8)
    }

    /// Shifts the bitboard `b` east one file.
    pub fn east_one(b: Bitboard) -> (r: Bitboard)
        ensures
            r.0 == east_one_spec(b.0),
    {
        Bitboard((b.0 << 1) & NOT_A_FILE)
    }

    /// Shifts the bitboard `b` west one file.
    pub fn west_one(b: Bitboard) -> (r: Bitboard)
        ensures
            r.0 == west_one_spec(b.0),
    {
        Bitboard((b.0 >> 1) & NOT_H_FILE)
    }

    /// Shifts the bitboard `b` northeast one square.
    pub fn noea_one(b: Bitboard) -> (r: Bitboard)
        ensures
            r.0 == noea_one_spec(b.0),
    {
        Bitboard((b.0 << 9) & NOT_A_FILE)
    }

    /// Shifts the bitboard `b` southeast one square.
    pub fn soea_one(b: Bitboard) -> (r: Bitboard)
        ensures
            r.0 == soea_one_spec(b.0),
    {
        Bitboard((b.0 >> 7) & NOT_A_FILE)
    }

    /// Shifts the bitboard `b` southwest one square.
    pub fn sowe_one(b: Bitboard) -> (r: Bitboard)
        ensures
            r.0 == sowe_one_spec(b.0),
    {
        Bitboard((b.0 >> 9) & NOT_H_FILE)
    }

    /// Shifts the bitboard `b` northwest one square.
    pub fn nowe_one(b: Bitboard) -> (r: Bitboard)
        ensures
            r.0 == nowe_one_spec(b.0),
    {
        Bitboard((b.0 << 7) & NOT_H_FILE)
    }

    /// Rotates the bitboard `b` left by `s` bits.
    pub fn rotate_left(b: Bitboard, s: u32) -> (r: Bitboard)
        ensures
            r.0 == ({
                let n = (s % 64) as u64;
                if n == 0 {
                    b.0
                } else {
                    (b.0 << n) | (b.0 >> (64 - n))
                }
            }),
    {
        let n: u32 = s % 64;
        if n == 0 {
            b
        } else {
            Bitboard((b.0 << n) | (b.0 >> (64 - n)))
        }
    }

    /// Rotates the bitboard `b` right by `s` bits.
    pub fn rotate_right(b: Bitboard, s: u32) -> (r: Bitboard)
        ensures
            r.0 == ({
                let n = (s % 64) as u64;
                if n == 0 {
                    b.0
                } else {
                    (b.0 >> n) | (b.0 << (64 - n))
                }
            }),
    {
        let n: u32 = s % 64;
        if n == 0 {
            b
        } else {
            Bitboard((b.0 >> n) | (b.0 << (64 - n)))
        }
    }

    /// Returns the square of the least significant one bit, or `None` on an
    /// empty board.
    pub fn bit_scan(&self) -> (r: Option<Square>)
        ensures
            match r {
                None => self.0 == 0,
                Some(s) => s.index_of() < 64 && bit64(self.0, s.index_of()) && (forall|j: u64|
                    j < s.index_of() ==> !bit64(self.0, j)),
            },
    {
        let tz = self.0.trailing_zeros();
        if tz == 64 {
            None
        } else {
            proof {
                vstd::std_specs::bits::axiom_u64_trailing_zeros(self.0);
                lemma_bit_ops();
            }
            Some(Square::from_index(tz as u8))
        }
    }

    /// Returns the square of the most significant one bit, or `None` on an
    /// empty board.
    pub fn bit_scan_reverse(&self) -> (r: Option<Square>)
        ensures
            match r {
                None => self.0 == 0,
                Some(s) => s.index_of() < 64 && bit64(self.0, s.index_of()) && (forall|j: u64|
                    s.index_of() < j < 64 ==> !bit64(self.0, j)),
            },
    {
        let lz = self.0.leading_zeros();
        if lz == 64 {
            None
        } else {
            proof {
                vstd::std_specs::bits::axiom_u64_leading_zeros(self.0);
                lemma_bit_ops();
            }
            Some(Square::from_index((63 - lz) as u8))
        }
    }

    /// Returns the number of squares in the set.
    pub fn count(&self) -> (n: u32)
        ensures
            n == pop64(self.0),
    {
        let mut x: u64 = self.0;
        let mut n: u32 = 0;
        proof {
            crate::bits::lemma_pop64_bound(x);
        }
        while x != 0
            invariant
                n + pop64(x) == pop64(self.0),
                pop64(self.0) <= 64,
            decreases x,
        {
            n = n + (x % 2) as u32;
            x = x / 2;
        }
        n
    }

    /// Renders the set as eight rows of cells, the eighth rank first: `1 `
    /// for a square in the set, `. ` for one outside it, and a line break
    /// after each rank.
    pub fn to_string(&self) -> (r: String)
        ensures
            r@.len() == 136,
            forall|p: int| 0 <= p < 136 ==> r@[p] == diagram_char(self.0, p),
    {
        proof {
            reveal_strlit("1 ");
            reveal_strlit(". ");
            reveal_strlit("\n");
        }
        let mut r = String::new();
        let mut row: u8 = 0;
        while row < 8
            invariant
                row <= 8,
                r@.len() == row * 17,
                forall|p: int| 0 <= p < r@.len() ==> r@[p] == diagram_char(self.0, p),
            decreases 8 - row,
        {
            proof {
                reveal_strlit("1 ");
                reveal_strlit(". ");
                reveal_strlit("\n");
            }
            let rank: u8 = 7 - row;
            let mut file: u8 = 0;
            while file < 8
                invariant
                    row < 8,
                    rank == 7 - row,
                    file <= 8,
                    r@.len() == row * 17 + file * 2,
                    forall|p: int| 0 <= p < r@.len() ==> r@[p] == diagram_char(self.0, p),
                decreases 8 - file,
            {
                proof {
                    reveal_strlit("1 ");
                    reveal_strlit(". ");
                    let q: int = row * 17 + file * 2;
                    vstd::arithmetic::div_mod::lemma_fundamental_div_mod_converse(
                        q,
                        17,
                        row as int,
                        file * 2,
                    );
                    vstd::arithmetic::div_mod::lemma_fundamental_div_mod_converse(
                        q + 1,
                        17,
                        row as int,
                        file * 2 + 1,
                    );
                    vstd::arithmetic::div_mod::lemma_fundamental_div_mod_converse(
                        file * 2,
                        2,
                        file as int,
                        0,
                    );
                    vstd::arithmetic::div_mod::lemma_fundamental_div_mod_converse(
                        file * 2 + 1,
                        2,
                        file as int,
                        1,
                    );
                }
                let idx: u8 = rank * 8 + file;
                if self.0 & (1u64 << idx) != 0 {
                    r.append("1 ");
                } else {
                    r.append(". ");
                }
                file = file + 1;
            }
            proof {
                reveal_strlit("\n");
                let q: int = row * 17 + 16;
                vstd::arithmetic::div_mod::lemma_fundamental_div_mod_converse(
                    q,
                    17,
                    row as int,
                    16,
                );
            }
            r.append("\n");
            row = row + 1;
        }
        r
    }

    /// True iff no square is in the set.
    pub fn empty(&self) -> (r: bool)
        ensures
            r == (self.0 == 0),
    {
        self.0 == 0
    }

    /// True iff some square is in the set.
    pub fn occupied(&self) -> (r: bool)
        ensures
            r == (self.0 != 0),
    {
        self.0 != 0
    }
}

} // verus!
