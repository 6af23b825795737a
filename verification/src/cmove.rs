//! Moves packed into 16 bits: `to` in bits 0-5, `from` in bits 6-11 and a
//! four-bit flag in bits 12-15.

use vstd::prelude::*;
use crate::utils::{Piece, Square};

verus! {

/// Flag of a quiet move.
pub const QUIET: u16 = 0;

/// Flag of a pawn double push.
pub const PAWN_DPUSH: u16 = 1;

/// Flag of a king-side castle.
pub const KING_CASTLE: u16 = 2;

/// Flag of a queen-side castle.
pub const QUEEN_CASTLE: u16 = 3;

/// Flag of a plain capture.
pub const CAPTURE: u16 = 4;

/// Flag of an en-passant capture.
pub const EP_CAPTURE: u16 = 5;

/// Flag of a promotion to a knight.
pub const KNIGHT_PROMO: u16 = 8;

/// Flag of a promotion to a bishop.
pub const BISHOP_PROMO: u16 = 9;

/// Flag of a promotion to a rook.
pub const ROOK_PROMO: u16 = 10;

/// Flag of a promotion to a queen.
pub const QUEEN_PROMO: u16 = 11;

/// Flag of a capture promoting to a knight.
pub const KNIGHT_PROMO_CAPTURE: u16 = 12;

/// Flag of a capture promoting to a bishop.
pub const BISHOP_PROMO_CAPTURE: u16 = 13;

/// Flag of a capture promoting to a rook.
pub const ROOK_PROMO_CAPTURE: u16 = 14;

/// Flag of a capture promoting to a queen.
pub const QUEEN_PROMO_CAPTURE: u16 = 15;

/// A move packed into 16 bits.
#[derive(Clone, Copy, Debug, PartialEq, Eq, Structural)]
pub struct CMove(u16);

/// A flag value below sixteen fills exactly the four flag bits.
pub proof fn lemma_small_flag(fl: u16)
    by (bit_vector)
    requires
        fl < 16,
    ensures
        fl & 0xf == fl,
{
}

/// Facts about packing a move word and reading its three fields back.
proof fn lemma_move_bits()
    by (bit_vector)
    ensures
        forall|f: u16, t: u16, fl: u16|
            f < 64 && t < 64 ==> {
                let w = #[trigger] (((fl & 0xf) << 12) | (f << 6) | t);
                &&& (w >> 6) & 0x3f == f
                &&& w & 0x3f == t
                &&& w >> 12 == fl & 0xf
            },
        forall|w: u16| #[trigger] ((w >> 6) & 0x3f) < 64,
        forall|w: u16| #[trigger] (w & 0x3f) < 64,
        forall|w: u16| #[trigger] (w >> 12) < 16,
        forall|w: u16, f: u16|
            f < 64 ==> {
                let v = #[trigger] ((w & 0xf03f) | (f << 6));
                &&& (v >> 6) & 0x3f == f
                &&& v & 0x3f == w & 0x3f
                &&& v >> 12 == w >> 12
            },
        forall|w: u16, t: u16|
            t < 64 ==> {
                let v = #[trigger] ((w & 0xffc0) | t);
                &&& (v >> 6) & 0x3f == (w >> 6) & 0x3f
                &&& v & 0x3f == t
                &&& v >> 12 == w >> 12
            },
{
}

impl CMove {
    /// The index of the origin square.
    pub closed spec fn from_sq(self) -> u64 {
        ((self.0 >> 6) & 0x3f) as u64
    }

    /// The index of the destination square.
    pub closed spec fn to_sq(self) -> u64 {
        (self.0 & 0x3f) as u64
    }

    /// The four-bit move flag.
    pub closed spec fn flags_of(self) -> u16 {
        self.0 >> 12
    }

    /// Every field a packed move decodes to is in range.
    pub proof fn lemma_fields(self)
        ensures
            self.from_sq() < 64,
            self.to_sq() < 64,
            self.flags_of() < 16,
    {
        lemma_move_bits();
    }

    /// Two moves with the same origin, destination and flag are the same
    /// move: the three fields fill the whole word.
    pub proof fn lemma_ext(m1: CMove, m2: CMove)
        requires
            m1.from_sq() == m2.from_sq(),
            m1.to_sq() == m2.to_sq(),
            m1.flags_of() == m2.flags_of(),
        ensures
            m1 == m2,
    {
        let w1 = m1.0;
        let w2 = m2.0;
        assert(w1 == w2) by (bit_vector)
            requires
                (w1 >> 6) & 0x3f == (w2 >> 6) & 0x3f,
                w1 & 0x3f == w2 & 0x3f,
                w1 >> 12 == w2 >> 12,
        ;
    }

    /// Packs `from`, `to` and the low four bits of `flags` into a move.
    pub fn new(from: Square, to: Square, flags: u16) -> (m: CMove)
        ensures
            m.from_sq() == from.index_of(),
            m.to_sq() == to.index_of(),
            m.flags_of() == flags & 0xf,
    {
        let f: u16 = from.index() as u16;
        let t: u16 = to.index() as u16;
        proof {
            lemma_move_bits();
        }
        CMove(((flags & 0xf) << 12) | (f << 6) | t)
    }

    /// Returns the origin square.
    pub fn get_from(&self) -> (s: Square)
        ensures
            s.index_of() == self.from_sq(),
    {
        proof {
            lemma_move_bits();
        }
        Square::from_index(((self.0 >> 6) & 0x3f) as u8)
    }

    /// Returns the destination square.
    pub fn get_to(&self) -> (s: Square)
        ensures
            s.index_of() == self.to_sq(),
    {
        proof {
            lemma_move_bits();
        }
        Square::from_index((self.0 & 0x3f) as u8)
    }

    /// Returns the move flag, a value below 16.
    pub fn get_flags(&self) -> (fl: u16)
        ensures
            fl == self.flags_of(),
            fl < 16,
    {
        proof {
            lemma_move_bits();
        }
        self.0 >> 12
    }

    /// Replaces the origin square, keeping the destination and the flag.
    pub fn set_from(&mut self, from: Square)
        ensures
            final(self).from_sq() == from.index_of(),
            final(self).to_sq() == old(self).to_sq(),
            final(self).flags_of() == old(self).flags_of(),
    {
        proof {
            lemma_move_bits();
        }
        self.0 = (self.0 & 0xf03f) | ((from.index() as u16) << 6);
    }

    /// Replaces the destination square, keeping the origin and the flag.
    pub fn set_to(&mut self, to: Square)
        ensures
            final(self).to_sq() == to.index_of(),
            final(self).from_sq() == old(self).from_sq(),
            final(self).flags_of() == old(self).flags_of(),
    {
        proof {
            lemma_move_bits();
        }
        self.0 = (self.0 & 0xffc0) | (to.index() as u16);
    }

    /// True of the flags that take an enemy piece off the board: a plain
    /// capture, an en-passant capture, or a capturing promotion.
    pub open spec fn is_capture_spec(self) -> bool {
        self.flags_of() == CAPTURE || self.flags_of() == EP_CAPTURE || self.flags_of() >= 12
    }

    /// True iff the move captures a piece.
    pub fn is_capture(&self) -> (r: bool)
        ensures
            r == self.is_capture_spec(),
    {
        let fl = self.get_flags();
        fl == CAPTURE || fl == EP_CAPTURE || fl >= 12
    }

    /// True iff the move is an en-passant capture.
    pub fn is_ep_capture(&self) -> (r: bool)
        ensures
            r == (self.flags_of() == EP_CAPTURE),
    {
        self.get_flags() == EP_CAPTURE
    }

    /// True iff the move is a pawn double push.
    pub fn is_pawn_dpush(&self) -> (r: bool)
        ensures
            r == (self.flags_of() == PAWN_DPUSH),
    {
        self.get_flags() == PAWN_DPUSH
    }

    /// The piece a promotion flag promotes to.
    pub open spec fn promo_piece_spec(self) -> Option<Piece> {
        if self.flags_of() >= 8 {
            Some(
                match self.flags_of() % 4 {
                    0u16 => Piece::Knight,
                    1u16 => Piece::Bishop,
                    2u16 => Piece::Rook,
                    _ => Piece::Queen,
                },
            )
        } else {
            None
        }
    }

    /// Returns the promotion piece, or `None` if the move is no promotion.
    pub fn is_promo(&self) -> (r: Option<Piece>)
        ensures
            r == self.promo_piece_spec(),
    {
        let fl = self.get_flags();
        if fl >= 8 {
            Some(
                match fl % 4 {
                    0u16 => Piece::Knight,
                    1u16 => Piece::Bishop,
                    2u16 => Piece::Rook,
                    _ => Piece::Queen,
                },
            )
        } else {
            None
        }
    }

    /// True iff the move is a king-side castle.
    pub fn is_king_castle(&self) -> (r: bool)
        ensures
            r == (self.flags_of() == KING_CASTLE),
    {
        self.get_flags() == KING_CASTLE
    }

    /// True iff the move is a queen-side castle.
    pub fn is_queen_castle(&self) -> (r: bool)
        ensures
            r == (self.flags_of() == QUEEN_CASTLE),
    {
        self.get_flags() == QUEEN_CASTLE
    }
}

} // verus!
