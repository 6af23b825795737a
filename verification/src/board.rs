//! The position: piece placement bitboards, side to move, castling rights,
//! the en-passant target and the halfmove clock, together with the
//! well-formedness invariant every reachable position satisfies.

use vstd::prelude::*;
use crate::bits::{bit64, one_bit, lemma_bit_ops};
use crate::bitboard::{
    Bitboard, PAWN_START, KNIGHT_START, BISHOP_START, ROOK_START, QUEEN_START, KING_START,
    WHITE_START, BLACK_START, EMPTY_START, OCCUPIED_START, RANK4, RANK5, RANK_1_AND_8,
};
use crate::utils::{CPiece, Color, Piece, Square};

verus! {

/// The square e1 as a mask.
pub const E1_BB: u64 = 0x10;

/// The square a1 as a mask.
pub const A1_BB: u64 = 0x1;

/// The square h1 as a mask.
pub const H1_BB: u64 = 0x80;

/// The square e8 as a mask.
pub const E8_BB: u64 = 0x10_00_00_00_00_00_00_00;

/// The square a8 as a mask.
pub const A8_BB: u64 = 0x01_00_00_00_00_00_00_00;

/// The square h8 as a mask.
pub const H8_BB: u64 = 0x80_00_00_00_00_00_00_00;

/// The square b1 as a mask.
pub const B1_BB: u64 = 0x2;

/// The square c1 as a mask.
pub const C1_BB: u64 = 0x4;

/// The square d1 as a mask.
pub const D1_BB: u64 = 0x8;

/// The square f1 as a mask.
pub const F1_BB: u64 = 0x20;

/// The square g1 as a mask.
pub const G1_BB: u64 = 0x40;

/// The square b8 as a mask.
pub const B8_BB: u64 = 0x02_00_00_00_00_00_00_00;

/// The square c8 as a mask.
pub const C8_BB: u64 = 0x04_00_00_00_00_00_00_00;

/// The square d8 as a mask.
pub const D8_BB: u64 = 0x08_00_00_00_00_00_00_00;

/// The square f8 as a mask.
pub const F8_BB: u64 = 0x20_00_00_00_00_00_00_00;

/// The square g8 as a mask.
pub const G8_BB: u64 = 0x40_00_00_00_00_00_00_00;

/// White's king-side castling right.
pub const WKING_SIDE_MASK: u8 = 1;

/// White's queen-side castling right.
pub const WQUEEN_SIDE_MASK: u8 = 2;

/// Black's king-side castling right.
pub const BKING_SIDE_MASK: u8 = 4;

/// Black's queen-side castling right.
pub const BQUEEN_SIDE_MASK: u8 = 8;

/// Why a piece list was rejected: the first violated position invariant.
#[derive(Clone, Copy, Debug, PartialEq, Eq, Structural)]
pub enum InvalidPosition {
    /// The list does not hold exactly 64 entries.
    BadLength,
    /// A square would hold pieces of both colors, or the color boards do not
    /// partition the occupied squares.
    BadColors,
    /// A color does not have exactly one king.
    BadKings,
    /// A pawn stands on the first or the eighth rank.
    BadPawns,
    /// The en-passant square is not a lone pawn of the side that just moved,
    /// on the rank a double push reaches.
    BadEnPassant,
    /// A castling right is set although the king or the rook left home.
    BadCastling,
    /// The halfmove clock exceeds the hundred plies that end the game.
    BadClock,
}

/// A full chess position.
#[derive(Clone, Copy, Debug, PartialEq, Eq, Structural)]
pub struct Board {
    /// All pawns, of either color.
    pub pawn_bb: u64,
    /// All knights, of either color.
    pub knight_bb: u64,
    /// All bishops, of either color.
    pub bishop_bb: u64,
    /// All rooks, of either color.
    pub rook_bb: u64,
    /// All queens, of either color.
    pub queen_bb: u64,
    /// Both kings.
    pub king_bb: u64,
    /// All white pieces.
    pub white_bb: u64,
    /// All black pieces.
    pub black_bb: u64,
    /// All occupied squares.
    pub occupied_bb: u64,
    /// All empty squares.
    pub empty_bb: u64,
    /// The square of the pawn that just double-pushed, if any.
    pub en_passant_bb: u64,
    /// Plies since the last pawn move or capture; 100 ends the game.
    pub halfmove_clock: u8,
    /// The four castling-right flags: WK, WQ, BK, BQ from the low bit up.
    pub castling_rights: u8,
    /// The side whose turn it is.
    pub side_to_move: Color,
}

impl Board {
    /// The squares holding pieces of kind `p`, of either color.
    pub open spec fn kind_bb(self, p: Piece) -> u64 {
        match p {
            Piece::Pawn => self.pawn_bb,
            Piece::Knight => self.knight_bb,
            Piece::Bishop => self.bishop_bb,
            Piece::Rook => self.rook_bb,
            Piece::Queen => self.queen_bb,
            Piece::King => self.king_bb,
        }
    }

    /// The squares holding pieces of color `c`.
    pub open spec fn color_of(self, c: Color) -> u64 {
        match c {
            Color::White => self.white_bb,
            Color::Black => self.black_bb,
        }
    }

    /// The union of the six piece-kind boards.
    pub open spec fn kind_union(self) -> u64 {
        self.pawn_bb | self.knight_bb | self.bishop_bb | self.rook_bb | self.queen_bb
            | self.king_bb
    }

    /// No square holds two kinds of piece.
    pub open spec fn kinds_disjoint(self) -> bool {
        &&& self.pawn_bb & self.knight_bb == 0
        &&& self.pawn_bb & self.bishop_bb == 0
        &&& self.pawn_bb & self.rook_bb == 0
        &&& self.pawn_bb & self.queen_bb == 0
        &&& self.pawn_bb & self.king_bb == 0
        &&& self.knight_bb & self.bishop_bb == 0
        &&& self.knight_bb & self.rook_bb == 0
        &&& self.knight_bb & self.queen_bb == 0
        &&& self.knight_bb & self.king_bb == 0
        &&& self.bishop_bb & self.rook_bb == 0
        &&& self.bishop_bb & self.queen_bb == 0
        &&& self.bishop_bb & self.king_bb == 0
        &&& self.rook_bb & self.queen_bb == 0
        &&& self.rook_bb & self.king_bb == 0
        &&& self.queen_bb & self.king_bb == 0
    }

    /// The color boards partition the occupied squares, the empty board is
    /// their complement, and the kind boards cover exactly the occupied
    /// squares.
    pub open spec fn wf_colors(self) -> bool {
        &&& self.white_bb & self.black_bb == 0
        &&& self.occupied_bb == self.white_bb | self.black_bb
        &&& self.empty_bb == !self.occupied_bb
        &&& self.kind_union() == self.occupied_bb
    }

    /// Each side has exactly one king.
    pub open spec fn wf_kings(self) -> bool {
        &&& one_bit(self.king_bb & self.white_bb)
        &&& one_bit(self.king_bb & self.black_bb)
    }

    /// No pawn stands on the first or the eighth rank.
    pub open spec fn wf_pawns(self) -> bool {
        self.pawn_bb & RANK_1_AND_8 == 0
    }

    /// The en-passant board is empty, or a single pawn of the side that just
    /// moved, on the rank a double push reaches.
    pub open spec fn wf_ep(self) -> bool {
        self.en_passant_bb == 0 || {
            &&& one_bit(self.en_passant_bb)
            &&& self.en_passant_bb & self.pawn_bb == self.en_passant_bb
            &&& self.side_to_move == Color::White ==> (self.en_passant_bb & RANK5
                == self.en_passant_bb && self.en_passant_bb & self.black_bb
                == self.en_passant_bb)
            &&& self.side_to_move == Color::Black ==> (self.en_passant_bb & RANK4
                == self.en_passant_bb && self.en_passant_bb & self.white_bb
                == self.en_passant_bb)
        }
    }

    /// Each set castling right has its king and rook on their home squares.
    pub open spec fn wf_castling(self) -> bool {
        &&& self.castling_rights < 16
        &&& self.castling_rights & WKING_SIDE_MASK != 0 ==> (self.king_bb & self.white_bb
            == E1_BB && self.rook_bb & self.white_bb & H1_BB != 0)
        &&& self.castling_rights & WQUEEN_SIDE_MASK != 0 ==> (self.king_bb & self.white_bb
            == E1_BB && self.rook_bb & self.white_bb & A1_BB != 0)
        &&& self.castling_rights & BKING_SIDE_MASK != 0 ==> (self.king_bb & self.black_bb
            == E8_BB && self.rook_bb & self.black_bb & H8_BB != 0)
        &&& self.castling_rights & BQUEEN_SIDE_MASK != 0 ==> (self.king_bb & self.black_bb
            == E8_BB && self.rook_bb & self.black_bb & A8_BB != 0)
    }

    /// The position invariant: every position built by the constructors and
    /// every position reached by applying generated moves satisfies it.
    pub open spec fn wf(self) -> bool {
        &&& self.wf_colors()
        &&& self.kinds_disjoint()
        &&& self.wf_kings()
        &&& self.wf_pawns()
        &&& self.wf_ep()
        &&& self.wf_castling()
        &&& self.halfmove_clock <= 100
    }

    /// Creates the standard starting position.
    pub fn new() -> (b: Board)
        ensures
            b.wf(),
            b.pawn_bb == PAWN_START,
            b.knight_bb == KNIGHT_START,
            b.bishop_bb == BISHOP_START,
            b.rook_bb == ROOK_START,
            b.queen_bb == QUEEN_START,
            b.king_bb == KING_START,
            b.white_bb == WHITE_START,
            b.black_bb == BLACK_START,
            b.occupied_bb == OCCUPIED_START,
            b.empty_bb == EMPTY_START,
            b.en_passant_bb == 0,
            b.halfmove_clock == 0,
            b.castling_rights == 15,
            b.side_to_move == Color::White,
    {
        let b = Board {
            pawn_bb: PAWN_START,
            knight_bb: KNIGHT_START,
            bishop_bb: BISHOP_START,
            rook_bb: ROOK_START,
            queen_bb: QUEEN_START,
            king_bb: KING_START,
            white_bb: WHITE_START,
            black_bb: BLACK_START,
            occupied_bb: OCCUPIED_START,
            empty_bb: EMPTY_START,
            en_passant_bb: 0,
            halfmove_clock: 0,
            castling_rights: 15,
            side_to_move: Color::White,
        };
        proof {
            lemma_start_position_wf();
        }
        b
    }

    /// Returns the board for piece kind `p`, intersected with the board of
    /// color `c` when one is given.
    pub fn piece_bb(&self, c: Option<Color>, p: Piece) -> (r: Bitboard)
        ensures
            r.0 == self.kind_bb(p) & (match c {
                Some(cc) => self.color_of(cc),
                None => !0u64,
            }),
    {
        let intersection: u64 = match c {
            Some(cc) => self.color_bb(cc).0,
            None => !0u64,
        };
        let kind: u64 = match p {
            Piece::Pawn => self.pawn_bb,
            Piece::Knight => self.knight_bb,
            Piece::Bishop => self.bishop_bb,
            Piece::Rook => self.rook_bb,
            Piece::Queen => self.queen_bb,
            Piece::King => self.king_bb,
        };
        Bitboard(kind & intersection)
    }

    /// Returns the board of all pieces of color `c`.
    pub fn color_bb(&self, c: Color) -> (r: Bitboard)
        ensures
            r.0 == self.color_of(c),
    {
        match c {
            Color::White => Bitboard(self.white_bb),
            Color::Black => Bitboard(self.black_bb),
        }
    }

    /// Returns the side to move.
    pub fn side_to_move(&self) -> (c: Color)
        ensures
            c == self.side_to_move,
    {
        self.side_to_move
    }

    /// Returns the halfmove clock.
    pub fn halfmove_clock(&self) -> (n: u8)
        ensures
            n == self.halfmove_clock,
    {
        self.halfmove_clock
    }

    /// Returns the four castling-right flags.
    pub fn castling_rights(&self) -> (r: u8)
        ensures
            r == self.castling_rights,
    {
        self.castling_rights
    }

    /// Returns the square of the pawn a double push just exposed to capture,
    /// if there is one.
    pub fn ep_square(&self) -> (r: Option<Square>)
        requires
            self.wf(),
        ensures
            match r {
                None => self.en_passant_bb == 0,
                Some(s) => s.index_of() < 64 && self.en_passant_bb == 1u64 << s.index_of(),
            },
    {
        let r = Bitboard(self.en_passant_bb).bit_scan();
        proof {
            if let Some(s) = r {
                lemma_bit_ops();
                crate::bits::lemma_one_bit_single(self.en_passant_bb, s.index_of());
            }
        }
        r
    }

    /// The occupant of square `i`, read off the color and kind boards in
    /// order.
    pub open spec fn spec_piece_on(self, i: u64) -> Option<CPiece> {
        if !bit64(self.white_bb, i) && !bit64(self.black_bb, i) {
            None
        } else {
            let c = if bit64(self.white_bb, i) {
                Color::White
            } else {
                Color::Black
            };
            let p = if bit64(self.pawn_bb, i) {
                Piece::Pawn
            } else if bit64(self.knight_bb, i) {
                Piece::Knight
            } else if bit64(self.bishop_bb, i) {
                Piece::Bishop
            } else if bit64(self.rook_bb, i) {
                Piece::Rook
            } else if bit64(self.queen_bb, i) {
                Piece::Queen
            } else {
                Piece::King
            };
            Some(CPiece(p, c))
        }
    }

    /// Returns `Some(p)` for the piece `p` on square `s`, or `None` when the
    /// square is empty.
    pub fn piece_on_square(&self, s: Square) -> (r: Option<CPiece>)
        ensures
            r == self.spec_piece_on(s.index_of()),
    {
        let bb: u64 = s.as_bitboard().0;
        let c = if self.white_bb & bb != 0 {
            Color::White
        } else if self.black_bb & bb != 0 {
            Color::Black
        } else {
            return None;
        };
        let p = if self.pawn_bb & bb != 0 {
            Piece::Pawn
        } else if self.knight_bb & bb != 0 {
            Piece::Knight
        } else if self.bishop_bb & bb != 0 {
            Piece::Bishop
        } else if self.rook_bb & bb != 0 {
            Piece::Rook
        } else if self.queen_bb & bb != 0 {
            Piece::Queen
        } else {
            Piece::King
        };
        Some(CPiece(p, c))
    }
}

/// The squares of the first `n` list entries that hold a piece of kind `p`.
pub open spec fn kind_mask(list: Seq<Option<CPiece>>, p: Piece, n: int) -> u64
    decreases n,
{
    if n <= 0 {
        0
    } else {
        kind_mask(list, p, n - 1) | (match list[n - 1] {
            Some(cp) => if cp.0 == p {
                1u64 << ((n - 1) as u64)
            } else {
                0u64
            },
            None => 0u64,
        })
    }
}

/// The squares of the first `n` list entries that hold a piece of color `c`.
pub open spec fn color_mask(list: Seq<Option<CPiece>>, c: Color, n: int) -> u64
    decreases n,
{
    if n <= 0 {
        0
    } else {
        color_mask(list, c, n - 1) | (match list[n - 1] {
            Some(cp) => if cp.1 == c {
                1u64 << ((n - 1) as u64)
            } else {
                0u64
            },
            None => 0u64,
        })
    }
}

/// Unfolds one step of the two mask folds over a piece list.
proof fn lemma_mask_step(list: Seq<Option<CPiece>>, n: int)
    requires
        1 <= n,
    ensures
        forall|p: Piece| #[trigger] kind_mask(list, p, n) == (kind_mask(list, p, n - 1) | (
        match list[n - 1] {
            Some(cp) => if cp.0 == p {
                1u64 << ((n - 1) as u64)
            } else {
                0u64
            },
            None => 0u64,
        })),
        forall|c: Color| #[trigger] color_mask(list, c, n) == (color_mask(list, c, n - 1) | (
        match list[n - 1] {
            Some(cp) => if cp.1 == c {
                1u64 << ((n - 1) as u64)
            } else {
                0u64
            },
            None => 0u64,
        })),
{
}

/// The position a 64-entry piece list and the given scalars describe.
pub open spec fn board_of(
    list: Seq<Option<CPiece>>,
    side: Color,
    castling: u8,
    ep_square: Option<Square>,
    halfmove_clock: u8,
) -> Board {
    let white = color_mask(list, Color::White, 64);
    let black = color_mask(list, Color::Black, 64);
    Board {
        pawn_bb: kind_mask(list, Piece::Pawn, 64),
        knight_bb: kind_mask(list, Piece::Knight, 64),
        bishop_bb: kind_mask(list, Piece::Bishop, 64),
        rook_bb: kind_mask(list, Piece::Rook, 64),
        queen_bb: kind_mask(list, Piece::Queen, 64),
        king_bb: kind_mask(list, Piece::King, 64),
        white_bb: white,
        black_bb: black,
        occupied_bb: white | black,
        empty_bb: !(white | black),
        en_passant_bb: match ep_square {
            Some(s) => 1u64 << s.index_of(),
            None => 0u64,
        },
        halfmove_clock: halfmove_clock,
        castling_rights: castling,
        side_to_move: side,
    }
}

impl Board {
    /// True iff the color, occupancy and kind-union invariants hold.
    pub fn wf_colors_check(&self) -> (r: bool)
        ensures
            r == self.wf_colors(),
    {
        self.white_bb & self.black_bb == 0 && self.occupied_bb == (self.white_bb | self.black_bb)
            && self.empty_bb == !self.occupied_bb && (self.pawn_bb | self.knight_bb
            | self.bishop_bb | self.rook_bb | self.queen_bb | self.king_bb) == self.occupied_bb
    }

    /// True iff no square holds two kinds of piece.
    pub fn kinds_disjoint_check(&self) -> (r: bool)
        ensures
            r == self.kinds_disjoint(),
    {
        self.pawn_bb & self.knight_bb == 0 && self.pawn_bb & self.bishop_bb == 0
            && self.pawn_bb & self.rook_bb == 0 && self.pawn_bb & self.queen_bb == 0
            && self.pawn_bb & self.king_bb == 0 && self.knight_bb & self.bishop_bb == 0
            && self.knight_bb & self.rook_bb == 0 && self.knight_bb & self.queen_bb == 0
            && self.knight_bb & self.king_bb == 0 && self.bishop_bb & self.rook_bb == 0
            && self.bishop_bb & self.queen_bb == 0 && self.bishop_bb & self.king_bb == 0
            && self.rook_bb & self.queen_bb == 0 && self.rook_bb & self.king_bb == 0
            && self.queen_bb & self.king_bb == 0
    }

    /// True iff each side has exactly one king.
    pub fn wf_kings_check(&self) -> (r: bool)
        ensures
            r == self.wf_kings(),
    {
        crate::bits::is_one_bit(self.king_bb & self.white_bb) && crate::bits::is_one_bit(
            self.king_bb & self.black_bb,
        )
    }

    /// True iff no pawn stands on the first or the eighth rank.
    pub fn wf_pawns_check(&self) -> (r: bool)
        ensures
            r == self.wf_pawns(),
    {
        self.pawn_bb & RANK_1_AND_8 == 0
    }

    /// True iff the en-passant board has the shape the invariant asks.
    pub fn wf_ep_check(&self) -> (r: bool)
        ensures
            r == self.wf_ep(),
    {
        self.en_passant_bb == 0 || (crate::bits::is_one_bit(self.en_passant_bb)
            && self.en_passant_bb & self.pawn_bb == self.en_passant_bb && (match self.side_to_move {
            Color::White => self.en_passant_bb & RANK5 == self.en_passant_bb
                && self.en_passant_bb & self.black_bb == self.en_passant_bb,
            Color::Black => self.en_passant_bb & RANK4 == self.en_passant_bb
                && self.en_passant_bb & self.white_bb == self.en_passant_bb,
        }))
    }

    /// True iff every set castling right has king and rook at home.
    pub fn wf_castling_check(&self) -> (r: bool)
        ensures
            r == self.wf_castling(),
    {
        self.castling_rights < 16 && (self.castling_rights & WKING_SIDE_MASK == 0 || (self.king_bb
            & self.white_bb == E1_BB && self.rook_bb & self.white_bb & H1_BB != 0)) && (
        self.castling_rights & WQUEEN_SIDE_MASK == 0 || (self.king_bb & self.white_bb == E1_BB
            && self.rook_bb & self.white_bb & A1_BB != 0)) && (self.castling_rights
            & BKING_SIDE_MASK == 0 || (self.king_bb & self.black_bb == E8_BB && self.rook_bb
            & self.black_bb & H8_BB != 0)) && (self.castling_rights & BQUEEN_SIDE_MASK == 0 || (
        self.king_bb & self.black_bb == E8_BB && self.rook_bb & self.black_bb & A8_BB != 0))
    }

    /// True iff the whole position invariant holds.
    pub fn wf_check(&self) -> (r: bool)
        ensures
            r == self.wf(),
    {
        self.wf_colors_check() && self.kinds_disjoint_check() && self.wf_kings_check()
            && self.wf_pawns_check() && self.wf_ep_check() && self.wf_castling_check()
            && self.halfmove_clock <= 100
    }

    /// Builds a position from a 64-entry piece list (square 0 is a1, square
    /// 63 is h8) and the given scalars. Succeeds exactly when the list has 64
    /// entries and the described position satisfies the invariant; the error
    /// names the first invariant found violated.
    pub fn from_piece_list(
        list: &Vec<Option<CPiece>>,
        side: Color,
        castling: u8,
        ep_square: Option<Square>,
        halfmove_clock: u8,
    ) -> (r: Result<Board, InvalidPosition>)
        ensures
            list@.len() == 64 ==> (match r {
                Ok(b) => b == board_of(list@, side, castling, ep_square, halfmove_clock)
                    && b.wf(),
                Err(_) => !board_of(list@, side, castling, ep_square, halfmove_clock).wf(),
            }),
            list@.len() != 64 ==> r == Err::<Board, InvalidPosition>(InvalidPosition::BadLength),
    {
        if list.len() != 64 {
            return Err(InvalidPosition::BadLength);
        }
        let mut pawn_bb: u64 = 0;
        let mut knight_bb: u64 = 0;
        let mut bishop_bb: u64 = 0;
        let mut rook_bb: u64 = 0;
        let mut queen_bb: u64 = 0;
        let mut king_bb: u64 = 0;
        let mut white_bb: u64 = 0;
        let mut black_bb: u64 = 0;
        let mut i: usize = 0;
        while i < 64
            invariant
                list@.len() == 64,
                i <= 64,
                pawn_bb == kind_mask(list@, Piece::Pawn, i as int),
                knight_bb == kind_mask(list@, Piece::Knight, i as int),
                bishop_bb == kind_mask(list@, Piece::Bishop, i as int),
                rook_bb == kind_mask(list@, Piece::Rook, i as int),
                queen_bb == kind_mask(list@, Piece::Queen, i as int),
                king_bb == kind_mask(list@, Piece::King, i as int),
                white_bb == color_mask(list@, Color::White, i as int),
                black_bb == color_mask(list@, Color::Black, i as int),
            decreases 64 - i,
        {
            proof {
                lemma_bit_ops();
                lemma_mask_step(list@, i as int + 1);
            }
            let entry = list[i];
            let sq: u64 = 1u64 << (i as u64);
            pawn_bb = pawn_bb | (match entry {
                Some(cp) => if cp.0 == Piece::Pawn {
                    sq
                } else {
                    0u64
                },
                None => 0u64,
            });
            knight_bb = knight_bb | (match entry {
                Some(cp) => if cp.0 == Piece::Knight {
                    sq
                } else {
                    0u64
                },
                None => 0u64,
            });
            bishop_bb = bishop_bb | (match entry {
                Some(cp) => if cp.0 == Piece::Bishop {
                    sq
                } else {
                    0u64
                },
                None => 0u64,
            });
            rook_bb = rook_bb | (match entry {
                Some(cp) => if cp.0 == Piece::Rook {
                    sq
                } else {
                    0u64
                },
                None => 0u64,
            });
            queen_bb = queen_bb | (match entry {
                Some(cp) => if cp.0 == Piece::Queen {
                    sq
                } else {
                    0u64
                },
                None => 0u64,
            });
            king_bb = king_bb | (match entry {
                Some(cp) => if cp.0 == Piece::King {
                    sq
                } else {
                    0u64
                },
                None => 0u64,
            });
            white_bb = white_bb | (match entry {
                Some(cp) => if cp.1 == Color::White {
                    sq
                } else {
                    0u64
                },
                None => 0u64,
            });
            black_bb = black_bb | (match entry {
                Some(cp) => if cp.1 == Color::Black {
                    sq
                } else {
                    0u64
                },
                None => 0u64,
            });
            i = i + 1;
        }
        let b = Board {
            pawn_bb,
            knight_bb,
            bishop_bb,
            rook_bb,
            queen_bb,
            king_bb,
            white_bb,
            black_bb,
            occupied_bb: white_bb | black_bb,
            empty_bb: !(white_bb | black_bb),
            en_passant_bb: match ep_square {
                Some(s) => s.as_bitboard().0,
                None => 0u64,
            },
            halfmove_clock,
            castling_rights: castling,
            side_to_move: side,
        };
        if !b.wf_colors_check() {
            Err(InvalidPosition::BadColors)
        } else if !b.kinds_disjoint_check() {
            Err(InvalidPosition::BadColors)
        } else if !b.wf_kings_check() {
            Err(InvalidPosition::BadKings)
        } else if !b.wf_pawns_check() {
            Err(InvalidPosition::BadPawns)
        } else if !b.wf_ep_check() {
            Err(InvalidPosition::BadEnPassant)
        } else if !b.wf_castling_check() {
            Err(InvalidPosition::BadCastling)
        } else if b.halfmove_clock > 100 {
            Err(InvalidPosition::BadClock)
        } else {
            Ok(b)
        }
    }

    /// Writes the position out as a 64-entry piece list, the inverse of
    /// `from_piece_list` on the placement.
    pub fn to_piece_list(&self) -> (r: Vec<Option<CPiece>>)
        ensures
            r@.len() == 64,
            forall|i: int| 0 <= i < 64 ==> r@[i] == self.spec_piece_on(i as u64),
    {
        let mut r: Vec<Option<CPiece>> = Vec::new();
        let mut i: usize = 0;
        while i < 64
            invariant
                i <= 64,
                r@.len() == i,
                forall|j: int| 0 <= j < i ==> r@[j] == self.spec_piece_on(j as u64),
            decreases 64 - i,
        {
            r.push(self.piece_on_square(Square::from_index(i as u8)));
            i = i + 1;
        }
        r
    }
}

/// The starting placement satisfies the position invariant.
proof fn lemma_start_position_wf()
    by (bit_vector)
    ensures
        WHITE_START & BLACK_START == 0,
        OCCUPIED_START == WHITE_START | BLACK_START,
        EMPTY_START == !OCCUPIED_START,
        PAWN_START | KNIGHT_START | BISHOP_START | ROOK_START | QUEEN_START | KING_START
            == OCCUPIED_START,
        PAWN_START & KNIGHT_START == 0,
        PAWN_START & BISHOP_START == 0,
        PAWN_START & ROOK_START == 0,
        PAWN_START & QUEEN_START == 0,
        PAWN_START & KING_START == 0,
        KNIGHT_START & BISHOP_START == 0,
        KNIGHT_START & ROOK_START == 0,
        KNIGHT_START & QUEEN_START == 0,
        KNIGHT_START & KING_START == 0,
        BISHOP_START & ROOK_START == 0,
        BISHOP_START & QUEEN_START == 0,
        BISHOP_START & KING_START == 0,
        ROOK_START & QUEEN_START == 0,
        ROOK_START & KING_START == 0,
        QUEEN_START & KING_START == 0,
        one_bit(KING_START & WHITE_START),
        one_bit(KING_START & BLACK_START),
        PAWN_START & RANK_1_AND_8 == 0,
        KING_START & WHITE_START == E1_BB,
        ROOK_START & WHITE_START & H1_BB != 0,
        ROOK_START & WHITE_START & A1_BB != 0,
        KING_START & BLACK_START == E8_BB,
        ROOK_START & BLACK_START & H8_BB != 0,
        ROOK_START & BLACK_START & A8_BB != 0,
{
}

} // verus!
