//! Legal move generation. A move is *legal* when it passes the applier's
//! validity predicate, does not leave the mover's king attacked on the
//! resulting board, and, for castling, does not carry the king over an
//! attacked square. The generators return exactly the legal moves: each one
//! ensures that a move is in its list if and only if it is legal (restricted
//! to the generator's slice of the work), so an empty or padded list would
//! not verify.

use vstd::prelude::*;
use crate::bits::{bit64, lemma_bit_ops, lemma_one_bit_single, one_bit};
use crate::bitboard::{Bitboard, NOT_A_FILE, NOT_H_FILE};
use crate::board::Board;
use crate::attacks::{attacks_to_spec, king_attacks_spec, knight_attacks_spec, queen_attacks_spec};
use crate::apply::{apply_spec, kind_at, move_ok};
use crate::cmove::{CMove, KING_CASTLE, QUEEN_CASTLE, EP_CAPTURE};
use crate::utils::{Color, Piece, Square};

verus! {

/// The four squares a castling king lands on: g1, c1, g8 and c8.
pub const CASTLE_TARGETS: u64 = 0x44_00_00_00_00_00_00_44;

/// A cheap superset of the destinations a move from square `fi` can have
/// under the validity predicate: slider, knight and king reach, the four
/// pawn push squares, and the castling targets.
pub open spec fn cand_targets(b: Board, fi: u64) -> u64 {
    let f = 1u64 << fi;
    queen_attacks_spec(fi, b.occupied_bb) | knight_attacks_spec(f) | king_attacks_spec(f) | (f
        << 8) | (f >> 8) | ((f << 8) << 8) | ((f >> 8) >> 8) | CASTLE_TARGETS
}

/// After playing `m`, no opposing piece attacks the mover's king.
pub open spec fn king_safe_after(b: Board, m: CMove) -> bool {
    let a = apply_spec(b, m);
    forall|k: u64|
        k < 64 && #[trigger] bit64(a.king_bb & a.color_of(b.side_to_move), k)
            ==> attacks_to_spec(a, k, b.side_to_move.opp(), a.occupied_bb) == 0
}

/// For a castle, the king's square, the square it crosses and its
/// destination are free of enemy attack; any other move passes vacuously.
pub open spec fn castle_path_safe(b: Board, m: CMove) -> bool {
    let white = b.side_to_move == Color::White;
    let op = b.side_to_move.opp();
    if m.flags_of() == KING_CASTLE {
        if white {
            attacks_to_spec(b, 4, op, b.occupied_bb) == 0 && attacks_to_spec(b, 5, op, b.occupied_bb)
                == 0 && attacks_to_spec(b, 6, op, b.occupied_bb) == 0
        } else {
            attacks_to_spec(b, 60, op, b.occupied_bb) == 0 && attacks_to_spec(
                b,
                61,
                op,
                b.occupied_bb,
            ) == 0 && attacks_to_spec(b, 62, op, b.occupied_bb) == 0
        }
    } else if m.flags_of() == QUEEN_CASTLE {
        if white {
            attacks_to_spec(b, 4, op, b.occupied_bb) == 0 && attacks_to_spec(b, 3, op, b.occupied_bb)
                == 0 && attacks_to_spec(b, 2, op, b.occupied_bb) == 0
        } else {
            attacks_to_spec(b, 60, op, b.occupied_bb) == 0 && attacks_to_spec(
                b,
                59,
                op,
                b.occupied_bb,
            ) == 0 && attacks_to_spec(b, 58, op, b.occupied_bb) == 0
        }
    } else {
        true
    }
}

/// A strictly legal move: valid for the applier, king-safe afterwards, and
/// with a safe king path when castling. Marked opaque so that reasoning
/// about move lists can treat legality as one atom; proofs that need the
/// three parts reveal it.
#[verifier::opaque]
pub open spec fn legal_move(b: Board, m: CMove) -> bool {
    move_ok(b, m) && castle_path_safe(b, m) && king_safe_after(b, m)
}

/// A legal move is in particular valid for the applier.
pub proof fn lemma_legal_implies_ok(b: Board, m: CMove)
    requires
        legal_move(b, m),
    ensures
        move_ok(b, m),
{
    reveal(legal_move);
}

/// Membership in a pushed list is membership in the old list or equality
/// with the pushed move.
proof fn lemma_contains_push(s: Seq<CMove>, x: CMove, y: CMove)
    ensures
        s.push(x).contains(y) <==> (s.contains(y) || y == x),
{
    if s.push(x).contains(y) {
        let i = choose|i: int| 0 <= i < s.push(x).len() && s.push(x)[i] == y;
        if i < s.len() {
            assert(s[i] == y);
        }
    }
    if s.contains(y) {
        let i = choose|i: int| 0 <= i < s.len() && s[i] == y;
        assert(s.push(x)[i] == y);
    }
    if y == x {
        assert(s.push(x)[s.len() as int] == y);
    }
}

/// Membership in a concatenation is membership in either part.
proof fn lemma_contains_append(a: Seq<CMove>, b: Seq<CMove>, y: CMove)
    ensures
        (a + b).contains(y) <==> (a.contains(y) || b.contains(y)),
{
    if (a + b).contains(y) {
        let i = choose|i: int| 0 <= i < (a + b).len() && (a + b)[i] == y;
        if i < a.len() {
            assert(a[i] == y);
        } else {
            assert(b[i - a.len()] == y);
        }
    }
    if a.contains(y) {
        let i = choose|i: int| 0 <= i < a.len() && a[i] == y;
        assert((a + b)[i] == y);
    }
    if b.contains(y) {
        let i = choose|i: int| 0 <= i < b.len() && b[i] == y;
        assert((a + b)[i + a.len()] == y);
    }
}

/// The en-passant destination lies a king step away from the capturing
/// pawn's square.
proof fn lemma_ep_target_near(ep: u64, f: u64, t: u64, fi: u64, ti: u64)
    by (bit_vector)
    requires
        fi < 64,
        ti < 64,
        f == 1u64 << fi,
        t == 1u64 << ti,
        one_bit(ep),
        f & (((ep << 1) & NOT_A_FILE) | ((ep >> 1) & NOT_H_FILE)) != 0,
        t == ep << 8 || t == ep >> 8,
    ensures
        bit64(king_attacks_spec(f), ti),
{
}

/// A pawn that can capture en passant stands directly east or west of the
/// double-pushed pawn.
proof fn lemma_ep_from_forced(ep: u64, f: u64, fi: u64)
    by (bit_vector)
    requires
        fi < 64,
        f == 1u64 << fi,
        one_bit(ep),
        f & (((ep << 1) & NOT_A_FILE) | ((ep >> 1) & NOT_H_FILE)) != 0,
    ensures
        f == ((ep << 1) & NOT_A_FILE) || f == ((ep >> 1) & NOT_H_FILE),
{
}

/// Shifting the en-passant pawn one rank keeps a single bit: the pawn
/// stands on a middle rank, so the shift cannot fall off the board.
proof fn lemma_ep_shift_one_bit(ep: u64, white: bool)
    by (bit_vector)
    requires
        one_bit(ep),
        white ==> ep & crate::bitboard::RANK5 == ep,
        !white ==> ep & crate::bitboard::RANK4 == ep,
    ensures
        white ==> one_bit(ep << 8),
        !white ==> one_bit(ep >> 8),
{
}

/// The four castling squares as shift masks.
proof fn lemma_castle_squares()
    by (bit_vector)
    ensures
        crate::board::E1_BB == 1u64 << 4u64,
        crate::board::G1_BB == 1u64 << 6u64,
        crate::board::C1_BB == 1u64 << 2u64,
        crate::board::E8_BB == 1u64 << 60u64,
        crate::board::G8_BB == 1u64 << 62u64,
        crate::board::C8_BB == 1u64 << 58u64,
        CASTLE_TARGETS & crate::board::G1_BB == crate::board::G1_BB,
        CASTLE_TARGETS & crate::board::C1_BB == crate::board::C1_BB,
        CASTLE_TARGETS & crate::board::G8_BB == crate::board::G8_BB,
        CASTLE_TARGETS & crate::board::C8_BB == crate::board::C8_BB,
{
}

/// A legal castle starts on the king's home square and lands on the
/// castling target of its flag and side.
proof fn lemma_castle_forced(b: Board, m: CMove)
    requires
        b.wf(),
        legal_move(b, m),
        m.flags_of() == KING_CASTLE || m.flags_of() == QUEEN_CASTLE,
    ensures
        b.side_to_move == Color::White ==> m.from_sq() == 4,
        b.side_to_move == Color::White && m.flags_of() == KING_CASTLE ==> m.to_sq() == 6,
        b.side_to_move == Color::White && m.flags_of() == QUEEN_CASTLE ==> m.to_sq() == 2,
        b.side_to_move == Color::Black ==> m.from_sq() == 60,
        b.side_to_move == Color::Black && m.flags_of() == KING_CASTLE ==> m.to_sq() == 62,
        b.side_to_move == Color::Black && m.flags_of() == QUEEN_CASTLE ==> m.to_sq() == 58,
        bit64(b.color_of(b.side_to_move), m.from_sq()),
{
    reveal(legal_move);
    m.lemma_fields();
    lemma_bit_ops();
    lemma_castle_squares();
    let f = 1u64 << m.from_sq();
    let t = 1u64 << m.to_sq();
    assert(bit64(f, m.from_sq()));
    assert(bit64(t, m.to_sq()));
    if b.side_to_move == Color::White {
        assert(bit64(1u64 << 4u64, m.from_sq()));
        if m.flags_of() == KING_CASTLE {
            assert(bit64(1u64 << 6u64, m.to_sq()));
        } else {
            assert(bit64(1u64 << 2u64, m.to_sq()));
        }
    } else {
        assert(bit64(1u64 << 60u64, m.from_sq()));
        if m.flags_of() == KING_CASTLE {
            assert(bit64(1u64 << 62u64, m.to_sq()));
        } else {
            assert(bit64(1u64 << 58u64, m.to_sq()));
        }
    }
}

/// A legal en-passant capture starts beside the double-pushed pawn and
/// lands right behind it.
proof fn lemma_ep_forced(b: Board, m: CMove)
    requires
        b.wf(),
        legal_move(b, m),
        m.flags_of() == EP_CAPTURE,
    ensures
        b.en_passant_bb != 0,
        1u64 << m.from_sq() == ((b.en_passant_bb << 1) & NOT_A_FILE) || 1u64 << m.from_sq() == ((
        b.en_passant_bb >> 1) & NOT_H_FILE),
        b.side_to_move == Color::White ==> 1u64 << m.to_sq() == b.en_passant_bb << 8,
        b.side_to_move == Color::Black ==> 1u64 << m.to_sq() == b.en_passant_bb >> 8,
{
    reveal(legal_move);
    m.lemma_fields();
    lemma_bit_ops();
    assert(one_bit(b.en_passant_bb));
    lemma_ep_from_forced(b.en_passant_bb, 1u64 << m.from_sq(), m.from_sq());
}

/// Every destination the validity predicate admits from `fi` lies in the
/// candidate superset.
proof fn lemma_move_to_in_cand(b: Board, m: CMove)
    requires
        b.wf(),
        legal_move(b, m),
    ensures
        bit64(cand_targets(b, m.from_sq()), m.to_sq()),
{
    reveal(legal_move);
    m.lemma_fields();
    lemma_bit_ops();
    let fi = m.from_sq();
    let ti = m.to_sq();
    let f = 1u64 << fi;
    let t = 1u64 << ti;
    let fl = m.flags_of();
    assert(bit64(1u64 << ti, ti));
    if fl == KING_CASTLE || fl == QUEEN_CASTLE {
        lemma_castle_squares();
        assert(bit64(CASTLE_TARGETS & t, ti));
    } else if fl == EP_CAPTURE {
        lemma_ep_target_near(b.en_passant_bb, f, t, fi, ti);
    } else if fl == crate::cmove::QUIET && f & b.pawn_bb == 0 {
        match kind_at(b, fi) {
            Piece::Pawn => {},
            Piece::Knight => {
                assert(bit64(knight_attacks_spec(f), ti));
            },
            Piece::Bishop => {
                assert(bit64(crate::attacks::bishop_attacks_spec(fi, b.occupied_bb), ti));
            },
            Piece::Rook => {
                assert(bit64(crate::attacks::rook_attacks_spec(fi, b.occupied_bb), ti));
            },
            Piece::Queen => {
                assert(bit64(queen_attacks_spec(fi, b.occupied_bb), ti));
            },
            Piece::King => {
                assert(bit64(king_attacks_spec(f), ti));
            },
        }
    } else if fl == crate::cmove::CAPTURE && f & b.pawn_bb == 0 {
        match kind_at(b, fi) {
            Piece::Pawn => {},
            Piece::Knight => {
                assert(bit64(knight_attacks_spec(f), ti));
            },
            Piece::Bishop => {
                assert(bit64(crate::attacks::bishop_attacks_spec(fi, b.occupied_bb), ti));
            },
            Piece::Rook => {
                assert(bit64(crate::attacks::rook_attacks_spec(fi, b.occupied_bb), ti));
            },
            Piece::Queen => {
                assert(bit64(queen_attacks_spec(fi, b.occupied_bb), ti));
            },
            Piece::King => {
                assert(bit64(king_attacks_spec(f), ti));
            },
        }
    } else {
        // Pawn pushes, pawn captures and promotions.
        assert(bit64(crate::attacks::pawn_attacks_spec(b.side_to_move, f), ti) ==> bit64(
            king_attacks_spec(f),
            ti,
        ));
    }
}

/// The mover of a valid move stands on the side-to-move board of its own
/// kind.
proof fn lemma_move_from_cover(b: Board, m: CMove)
    requires
        b.wf(),
        legal_move(b, m),
    ensures
        bit64(b.color_of(b.side_to_move), m.from_sq()),
        bit64(b.kind_bb(kind_at(b, m.from_sq())) & b.color_of(b.side_to_move), m.from_sq()),
    {
    reveal(legal_move);
    m.lemma_fields();
    lemma_bit_ops();
    let fi = m.from_sq();
    let own = b.color_of(b.side_to_move);
    assert(bit64(own, fi));
    assert(bit64(b.white_bb | b.black_bb, fi) == bit64(b.occupied_bb, fi));
    assert(bit64(
        b.pawn_bb | b.knight_bb | b.bishop_bb | b.rook_bb | b.queen_bb | b.king_bb,
        fi,
    ) == bit64(b.occupied_bb, fi));
    assert(!bit64(b.pawn_bb & b.knight_bb, fi));
    assert(!bit64(b.pawn_bb & b.bishop_bb, fi));
    assert(!bit64(b.pawn_bb & b.rook_bb, fi));
    assert(!bit64(b.pawn_bb & b.queen_bb, fi));
    assert(!bit64(b.pawn_bb & b.king_bb, fi));
    assert(bit64(b.kind_bb(kind_at(b, fi)), fi));
    assert(bit64(b.kind_bb(kind_at(b, fi)) & own, fi));
}

impl Board {
    /// True iff the move may be handed to the applier: an executable twin of
    /// the `move_ok` predicate.
    pub fn move_ok_exec(&self, m: &CMove) -> (r: bool)
        ensures
            r == move_ok(*self, *m),
    {
        let s = self.side_to_move;
        let from = m.get_from();
        let to = m.get_to();
        let fi: u8 = from.index();
        let ti: u8 = to.index();
        let f: u64 = 1u64 << fi;
        let t: u64 = 1u64 << ti;
        let own: u64 = self.color_bb(s).0;
        let enemy: u64 = self.color_bb(s.op()).0;
        let fl = m.get_flags();
        let white = match s {
            Color::White => true,
            Color::Black => false,
        };
        if !(self.halfmove_clock < 100) {
            return false;
        }
        if f & own == 0 {
            return false;
        }
        if fl == crate::cmove::QUIET {
            t & self.occupied_bb == 0 && (if f & self.pawn_bb != 0 {
                (if white {
                    t == f << 8
                } else {
                    t == f >> 8
                }) && t & crate::bitboard::RANK_1_AND_8 == 0
            } else {
                self.reach_ok_exec(from, t)
            })
        } else if fl == crate::cmove::PAWN_DPUSH {
            f & self.pawn_bb != 0 && t & self.occupied_bb == 0 && (if white {
                f & crate::bitboard::RANK2 != 0 && t == (f << 8) << 8 && (f << 8)
                    & self.occupied_bb == 0
            } else {
                f & crate::bitboard::RANK7 != 0 && t == (f >> 8) >> 8 && (f >> 8)
                    & self.occupied_bb == 0
            })
        } else if fl == KING_CASTLE {
            if white {
                self.castling_rights & crate::board::WKING_SIDE_MASK != 0 && f
                    == crate::board::E1_BB && t == crate::board::G1_BB && self.occupied_bb & (
                crate::board::F1_BB | crate::board::G1_BB) == 0
            } else {
                self.castling_rights & crate::board::BKING_SIDE_MASK != 0 && f
                    == crate::board::E8_BB && t == crate::board::G8_BB && self.occupied_bb & (
                crate::board::F8_BB | crate::board::G8_BB) == 0
            }
        } else if fl == QUEEN_CASTLE {
            if white {
                self.castling_rights & crate::board::WQUEEN_SIDE_MASK != 0 && f
                    == crate::board::E1_BB && t == crate::board::C1_BB && self.occupied_bb & (
                crate::board::B1_BB | crate::board::C1_BB | crate::board::D1_BB) == 0
            } else {
                self.castling_rights & crate::board::BQUEEN_SIDE_MASK != 0 && f
                    == crate::board::E8_BB && t == crate::board::C8_BB && self.occupied_bb & (
                crate::board::B8_BB | crate::board::C8_BB | crate::board::D8_BB) == 0
            }
        } else if fl == crate::cmove::CAPTURE {
            t & enemy != 0 && t & self.king_bb == 0 && (if f & self.pawn_bb != 0 {
                t & Board::pawn_attacks(from, s).0 != 0 && t & crate::bitboard::RANK_1_AND_8 == 0
            } else {
                self.reach_ok_exec(from, t)
            })
        } else if fl == EP_CAPTURE {
            let ep = self.en_passant_bb;
            f & self.pawn_bb != 0 && ep != 0 && (if white {
                t == ep << 8
            } else {
                t == ep >> 8
            }) && f & (((ep << 1) & NOT_A_FILE) | ((ep >> 1) & NOT_H_FILE)) != 0 && t
                & self.occupied_bb == 0
        } else if 8 <= fl && fl < 12 {
            f & self.pawn_bb != 0 && t & self.occupied_bb == 0 && (if white {
                f & crate::bitboard::RANK7 != 0 && t == f << 8
            } else {
                f & crate::bitboard::RANK2 != 0 && t == f >> 8
            })
        } else if 12 <= fl {
            f & self.pawn_bb != 0 && t & enemy != 0 && t & self.king_bb == 0 && t
                & Board::pawn_attacks(from, s).0 != 0 && (if white {
                f & crate::bitboard::RANK7 != 0
            } else {
                f & crate::bitboard::RANK2 != 0
            })
        } else {
            false
        }
    }

    /// True iff the non-pawn piece on `from` attacks the square of mask `t`.
    fn reach_ok_exec(&self, from: Square, t: u64) -> (r: bool)
        ensures
            r == crate::apply::reach_ok(
                *self,
                crate::apply::kind_at(*self, from.index_of()),
                from.index_of(),
                t,
            ),
    {
        match self.kind_on(from.index()) {
            Piece::Pawn => false,
            Piece::Knight => t & Board::knight_attacks(from).0 != 0,
            Piece::Bishop => t & self.bishop_attacks(from, None).0 != 0,
            Piece::Rook => t & self.rook_attacks(from, None).0 != 0,
            Piece::Queen => t & self.queen_attacks(from, None).0 != 0,
            Piece::King => t & Board::king_attacks(from).0 != 0,
        }
    }

    /// Returns the square of the side's king.
    fn king_square(&self, c: Color) -> (s: Square)
        requires
            self.wf(),
        ensures
            s.index_of() < 64,
            bit64(self.king_bb & self.color_of(c), s.index_of()),
    {
        let kb = Bitboard(self.king_bb & self.color_bb(c).0);
        match kb.bit_scan() {
            Some(s) => s,
            None => {
                proof {
                    assert(one_bit(self.king_bb & self.color_of(c)));
                    assert(false);
                }
                Square::A1
            },
        }
    }

    /// True iff `m` is strictly legal on this position: an executable twin
    /// of `legal_move`, built from the validity check, the castling path
    /// test, and a king-safety test on the board after the move.
    #[verifier::rlimit(80)]
    pub fn legal_move_exec(&self, m: &CMove) -> (r: bool)
        requires
            self.wf(),
        ensures
            r == legal_move(*self, *m),
    {
        proof {
            reveal(legal_move);
        }
        if !self.move_ok_exec(m) {
            return false;
        }
        let fl = m.get_flags();
        let mover = self.side_to_move;
        let op = mover.op();
        if fl == KING_CASTLE {
            let path_ok = match mover {
                Color::White => !self.attacked(Square::E1, op, self.occupied_bb) && !self.attacked(
                    Square::F1,
                    op,
                    self.occupied_bb,
                ) && !self.attacked(Square::G1, op, self.occupied_bb),
                Color::Black => !self.attacked(Square::E8, op, self.occupied_bb) && !self.attacked(
                    Square::F8,
                    op,
                    self.occupied_bb,
                ) && !self.attacked(Square::G8, op, self.occupied_bb),
            };
            if !path_ok {
                return false;
            }
        } else if fl == QUEEN_CASTLE {
            let path_ok = match mover {
                Color::White => !self.attacked(Square::E1, op, self.occupied_bb) && !self.attacked(
                    Square::D1,
                    op,
                    self.occupied_bb,
                ) && !self.attacked(Square::C1, op, self.occupied_bb),
                Color::Black => !self.attacked(Square::E8, op, self.occupied_bb) && !self.attacked(
                    Square::D8,
                    op,
                    self.occupied_bb,
                ) && !self.attacked(Square::C8, op, self.occupied_bb),
            };
            if !path_ok {
                return false;
            }
        }
        let mut child = *self;
        child.make_move_mut(m);
        let ks = child.king_square(mover);
        let safe = !child.attacked(ks, op, child.occupied_bb);
        proof {
            lemma_bit_ops();
            let a = apply_spec(*self, *m);
            let kb = a.king_bb & a.color_of(mover);
            assert(one_bit(kb));
            lemma_one_bit_single(kb, ks.index_of());
            if safe {
                assert forall|k: u64|
                    k < 64 && #[trigger] bit64(kb, k) implies attacks_to_spec(a, k, op, a.occupied_bb)
                    == 0 by {
                    assert(bit64(1u64 << ks.index_of(), k));
                }
            }
        }
        safe
    }

    /// Appends every legal move that starts on square `fi` and is not a
    /// castle.
    fn scan_square(&self, fi: u8, moves: &mut Vec<CMove>)
        requires
            self.wf(),
            fi < 64,
        ensures
            forall|m: CMove|
                #[trigger] final(moves)@.contains(m) <==> (old(moves)@.contains(m) || (legal_move(
                    *self,
                    m,
                ) && m.from_sq() == fi as u64 && m.flags_of() != KING_CASTLE && m.flags_of()
                    != QUEEN_CASTLE)),
    {
        let ghost moves0 = moves@;
        let from = Square::from_index(fi);
        let cand: u64 = self.candidate_targets(fi);
        let mut ti: u8 = 0;
        while ti < 64
            invariant
                self.wf(),
                fi < 64,
                ti <= 64,
                from.index_of() == fi as u64,
                cand == cand_targets(*self, fi as u64),
                forall|m: CMove|
                    #[trigger] moves@.contains(m) <==> (moves0.contains(m) || (legal_move(*self, m)
                        && m.from_sq() == fi as u64 && m.to_sq() < ti as u64 && m.flags_of()
                        != KING_CASTLE && m.flags_of() != QUEEN_CASTLE)),
            decreases 64 - ti,
        {
            if cand & (1u64 << ti) != 0 {
                let to = Square::from_index(ti);
                let mut fl: u16 = 0;
                while fl < 16
                    invariant
                        self.wf(),
                        fi < 64,
                        ti < 64,
                        fl <= 16,
                        from.index_of() == fi as u64,
                        to.index_of() == ti as u64,
                        forall|m: CMove|
                            #[trigger] moves@.contains(m) <==> (moves0.contains(m) || (legal_move(
                                *self,
                                m,
                            ) && m.from_sq() == fi as u64 && m.flags_of() != KING_CASTLE
                                && m.flags_of() != QUEEN_CASTLE && (m.to_sq() < ti as u64 || (
                            m.to_sq() == ti as u64 && m.flags_of() < fl)))),
                    decreases 16 - fl,
                {
                    if fl != KING_CASTLE && fl != QUEEN_CASTLE {
                        let m = CMove::new(from, to, fl);
                        proof {
                            crate::cmove::lemma_small_flag(fl);
                        }
                        let ghost before = moves@;
                        if self.legal_move_exec(&m) {
                            moves.push(m);
                        }
                        proof {
                            assert forall|m2: CMove|
                                #[trigger] moves@.contains(m2) <==> (moves0.contains(m2) || (
                                legal_move(*self, m2) && m2.from_sq() == fi as u64 && m2.flags_of()
                                    != KING_CASTLE && m2.flags_of() != QUEEN_CASTLE && (m2.to_sq()
                                    < ti as u64 || (m2.to_sq() == ti as u64 && m2.flags_of() < fl
                                    + 1)))) by {
                                lemma_contains_push(before, m, m2);
                                if m2.from_sq() == fi as u64 && m2.to_sq() == ti as u64
                                    && m2.flags_of() == fl {
                                    CMove::lemma_ext(m2, m);
                                }
                            }
                        }
                    }
                    fl = fl + 1;
                }
                proof {
                    assert forall|m: CMove|
                        #[trigger] moves@.contains(m) <==> (moves0.contains(m) || (legal_move(
                            *self,
                            m,
                        ) && m.from_sq() == fi as u64 && m.to_sq() < ti as u64 + 1 && m.flags_of()
                            != KING_CASTLE && m.flags_of() != QUEEN_CASTLE)) by {
                        m.lemma_fields();
                    }
                }
            } else {
                proof {
                    assert forall|m: CMove|
                        #[trigger] moves@.contains(m) <==> (moves0.contains(m) || (legal_move(
                            *self,
                            m,
                        ) && m.from_sq() == fi as u64 && m.to_sq() < ti as u64 + 1 && m.flags_of()
                            != KING_CASTLE && m.flags_of() != QUEEN_CASTLE)) by {
                        if legal_move(*self, m) && m.from_sq() == fi as u64 && m.to_sq()
                            == ti as u64 {
                            lemma_move_to_in_cand(*self, m);
                        }
                    }
                }
            }
            ti = ti + 1;
        }
        proof {
            assert forall|m: CMove|
                #[trigger] moves@.contains(m) <==> (moves0.contains(m) || (legal_move(*self, m)
                    && m.from_sq() == fi as u64 && m.flags_of() != KING_CASTLE && m.flags_of()
                    != QUEEN_CASTLE)) by {
                m.lemma_fields();
            }
        }
    }

    /// Returns the candidate destination superset for moves from `fi`.
    fn candidate_targets(&self, fi: u8) -> (r: u64)
        requires
            fi < 64,
        ensures
            r == cand_targets(*self, fi as u64),
    {
        let from = Square::from_index(fi);
        let f: u64 = 1u64 << fi;
        self.queen_attacks(from, None).0 | Board::knight_attacks(from).0 | Board::king_attacks(
            from,
        ).0 | (f << 8) | (f >> 8) | ((f << 8) << 8) | ((f >> 8) >> 8) | CASTLE_TARGETS
    }

    /// Returns every legal non-castle move of a pawn of color `c`.
    pub fn generate_pawn_moves(&self, for_color: Color) -> (moves: Vec<CMove>)
        requires
            self.wf(),
        ensures
            forall|m: CMove|
                #[trigger] moves@.contains(m) <==> (legal_move(*self, m) && bit64(
                    self.pawn_bb & self.color_of(for_color),
                    m.from_sq(),
                ) && m.flags_of() != KING_CASTLE && m.flags_of() != QUEEN_CASTLE),
    {
        self.generate_kind_moves(Piece::Pawn, for_color)
    }

    /// Returns every legal non-castle move of a piece of kind `for_piece`
    /// and color `for_color`.
    pub fn generate_piece_moves(&self, for_piece: Piece, for_color: Color) -> (moves: Vec<CMove>)
        requires
            self.wf(),
        ensures
            forall|m: CMove|
                #[trigger] moves@.contains(m) <==> (legal_move(*self, m) && bit64(
                    self.kind_bb(for_piece) & self.color_of(for_color),
                    m.from_sq(),
                ) && m.flags_of() != KING_CASTLE && m.flags_of() != QUEEN_CASTLE),
    {
        if let Piece::Pawn = for_piece {
            return self.generate_pawn_moves(for_color);
        }
        self.generate_kind_moves(for_piece, for_color)
    }

    /// Scans the squares of one kind board and gathers their legal
    /// non-castle moves.
    fn generate_kind_moves(&self, for_piece: Piece, for_color: Color) -> (moves: Vec<CMove>)
        requires
            self.wf(),
        ensures
            forall|m: CMove|
                #[trigger] moves@.contains(m) <==> (legal_move(*self, m) && bit64(
                    self.kind_bb(for_piece) & self.color_of(for_color),
                    m.from_sq(),
                ) && m.flags_of() != KING_CASTLE && m.flags_of() != QUEEN_CASTLE),
    {
        let mut moves: Vec<CMove> = Vec::new();
        let bb: u64 = self.piece_bb(Some(for_color), for_piece).0;
        let mut fi: u8 = 0;
        while fi < 64
            invariant
                self.wf(),
                fi <= 64,
                bb == self.kind_bb(for_piece) & self.color_of(for_color),
                forall|m: CMove|
                    #[trigger] moves@.contains(m) <==> (legal_move(*self, m) && bit64(
                        bb,
                        m.from_sq(),
                    ) && m.from_sq() < fi as u64 && m.flags_of() != KING_CASTLE && m.flags_of()
                        != QUEEN_CASTLE),
            decreases 64 - fi,
        {
            if bb & (1u64 << fi) != 0 {
                self.scan_square(fi, &mut moves);
            }
            fi = fi + 1;
        }
        proof {
            assert forall|m: CMove|
                #[trigger] moves@.contains(m) <==> (legal_move(*self, m) && bit64(bb, m.from_sq())
                    && m.flags_of() != KING_CASTLE && m.flags_of() != QUEEN_CASTLE) by {
                m.lemma_fields();
            }
        }
        moves
    }

    /// Returns the legal castling moves of color `for_color`: at most the
    /// king-side and queen-side castle, each present exactly when it is
    /// legal.
    #[verifier::rlimit(80)]
    pub fn castle_moves(&self, for_color: Color) -> (moves: Vec<CMove>)
        requires
            self.wf(),
        ensures
            forall|m: CMove|
                #[trigger] moves@.contains(m) <==> (legal_move(*self, m) && (m.flags_of()
                    == KING_CASTLE || m.flags_of() == QUEEN_CASTLE) && bit64(
                    self.color_of(for_color),
                    m.from_sq(),
                )),
    {
        let mut moves: Vec<CMove> = Vec::new();
        let (ks, qs) = match for_color {
            Color::White => (
                CMove::new(Square::E1, Square::G1, KING_CASTLE),
                CMove::new(Square::E1, Square::C1, QUEEN_CASTLE),
            ),
            Color::Black => (
                CMove::new(Square::E8, Square::G8, KING_CASTLE),
                CMove::new(Square::E8, Square::C8, QUEEN_CASTLE),
            ),
        };
        let ghost empty0 = moves@;
        if self.legal_move_exec(&ks) {
            moves.push(ks);
        }
        let ghost after_ks = moves@;
        if self.legal_move_exec(&qs) {
            moves.push(qs);
        }
        proof {
            lemma_bit_ops();
            crate::cmove::lemma_small_flag(KING_CASTLE);
            crate::cmove::lemma_small_flag(QUEEN_CASTLE);
            assert(empty0.len() == 0);
            assert forall|m: CMove|
                #[trigger] moves@.contains(m) <==> (legal_move(*self, m) && (m.flags_of()
                    == KING_CASTLE || m.flags_of() == QUEEN_CASTLE) && bit64(
                    self.color_of(for_color),
                    m.from_sq(),
                )) by {
                m.lemma_fields();
                lemma_contains_push(after_ks, qs, m);
                lemma_contains_push(empty0, ks, m);
                if moves@.contains(m) {
                    lemma_castle_forced(*self, m);
                    match (for_color, self.side_to_move) {
                        (Color::White, Color::Black) => {
                            assert(!bit64(self.white_bb & self.black_bb, m.from_sq()));
                        },
                        (Color::Black, Color::White) => {
                            assert(!bit64(self.white_bb & self.black_bb, m.from_sq()));
                        },
                        _ => {},
                    }
                }
                if legal_move(*self, m) && (m.flags_of() == KING_CASTLE || m.flags_of()
                    == QUEEN_CASTLE) && bit64(self.color_of(for_color), m.from_sq()) {
                    lemma_castle_forced(*self, m);
                    if self.side_to_move == Color::White {
                        match for_color {
                            Color::White => {
                                if m.flags_of() == KING_CASTLE {
                                    CMove::lemma_ext(m, ks);
                                } else {
                                    CMove::lemma_ext(m, qs);
                                }
                            },
                            Color::Black => {
                                assert(!bit64(self.white_bb & self.black_bb, m.from_sq()));
                            },
                        }
                    } else {
                        match for_color {
                            Color::Black => {
                                if m.flags_of() == KING_CASTLE {
                                    CMove::lemma_ext(m, ks);
                                } else {
                                    CMove::lemma_ext(m, qs);
                                }
                            },
                            Color::White => {
                                assert(!bit64(self.white_bb & self.black_bb, m.from_sq()));
                            },
                        }
                    }
                }
            }
        }
        moves
    }

    /// Returns the en-passant captures open to the pawns of `with_pawns`:
    /// at most one from each side of the double-pushed pawn, each present
    /// exactly when it is legal.
    #[verifier::rlimit(80)]
    pub fn ep_moves(
        &self,
        for_color: Color,
        with_pawns: Bitboard,
        pawn_dpushed: Bitboard,
    ) -> (moves: Vec<CMove>)
        requires
            self.wf(),
            for_color == self.side_to_move,
            pawn_dpushed.0 == self.en_passant_bb,
        ensures
            forall|m: CMove|
                #[trigger] moves@.contains(m) <==> (legal_move(*self, m) && m.flags_of()
                    == EP_CAPTURE && bit64(with_pawns.0, m.from_sq())),
    {
        let mut moves: Vec<CMove> = Vec::new();
        let ep = self.en_passant_bb;
        proof {
            lemma_bit_ops();
        }
        if ep == 0 {
            proof {
                assert forall|m: CMove| !(legal_move(*self, m) && m.flags_of() == EP_CAPTURE
                    && bit64(with_pawns.0, m.from_sq())) by {
                    if legal_move(*self, m) && m.flags_of() == EP_CAPTURE {
                        lemma_ep_forced(*self, m);
                    }
                }
            }
            return moves;
        }
        let to_mask: u64 = match for_color {
            Color::White => ep << 8,
            Color::Black => ep >> 8,
        };
        proof {
            assert(one_bit(ep));
            lemma_ep_shift_one_bit(ep, self.side_to_move == Color::White);
        }
        let to = match Bitboard(to_mask).bit_scan() {
            Some(s) => s,
            None => {
                proof {
                    assert(false);
                }
                return moves;
            },
        };
        proof {
            lemma_one_bit_single(to_mask, to.index_of());
        }
        let east_pawn: u64 = ((ep << 1) & NOT_A_FILE) & with_pawns.0;
        let west_pawn: u64 = ((ep >> 1) & NOT_H_FILE) & with_pawns.0;
        let east_cand: Option<CMove> = match Bitboard(east_pawn).bit_scan() {
            Some(fr) => Some(CMove::new(fr, to, EP_CAPTURE)),
            None => None,
        };
        let west_cand: Option<CMove> = match Bitboard(west_pawn).bit_scan() {
            Some(fr) => Some(CMove::new(fr, to, EP_CAPTURE)),
            None => None,
        };
        let ghost empty0 = moves@;
        let mut east_in: bool = false;
        if let Some(mc) = east_cand {
            if self.legal_move_exec(&mc) {
                moves.push(mc);
                east_in = true;
            }
        }
        let ghost after_east = moves@;
        let mut west_in: bool = false;
        if let Some(mc) = west_cand {
            if self.legal_move_exec(&mc) {
                moves.push(mc);
                west_in = true;
            }
        }
        proof {
            crate::cmove::lemma_small_flag(EP_CAPTURE);
            assert forall|m: CMove|
                #[trigger] moves@.contains(m) <==> (legal_move(*self, m) && m.flags_of()
                    == EP_CAPTURE && bit64(with_pawns.0, m.from_sq())) by {
                m.lemma_fields();
                if west_in {
                    lemma_contains_push(after_east, west_cand.unwrap(), m);
                }
                if east_in {
                    lemma_contains_push(empty0, east_cand.unwrap(), m);
                }
                if moves@.contains(m) {
                    lemma_ep_forced(*self, m);
                }
                if legal_move(*self, m) && m.flags_of() == EP_CAPTURE && bit64(
                    with_pawns.0,
                    m.from_sq(),
                ) {
                    lemma_ep_forced(*self, m);
                    let f = 1u64 << m.from_sq();
                    let t = 1u64 << m.to_sq();
                    assert(bit64(f, m.from_sq()));
                    assert(bit64(t, m.to_sq()));
                    assert(f != 0 && t != 0);
                    crate::bits::lemma_single_and(with_pawns.0, m.from_sq());
                    assert(t == to_mask);
                    lemma_one_bit_single(to_mask, m.to_sq());
                    assert(bit64(1u64 << to.index_of(), m.to_sq()));
                    assert(m.to_sq() == to.index_of());
                    if f == ((ep << 1) & NOT_A_FILE) {
                        assert(east_pawn == f);
                        let mc = east_cand.unwrap();
                        assert(bit64(1u64 << m.from_sq(), mc.from_sq()));
                        assert(mc.from_sq() == m.from_sq());
                        CMove::lemma_ext(m, mc);
                    } else {
                        assert(west_pawn == f);
                        let mc = west_cand.unwrap();
                        assert(bit64(1u64 << m.from_sq(), mc.from_sq()));
                        assert(mc.from_sq() == m.from_sq());
                        CMove::lemma_ext(m, mc);
                    }
                }
            }
        }
        moves
    }

    /// Returns every legal move when the side to move stands in check: the
    /// position being in check, these are exactly the evasions. The caller
    /// hands in the king's square and its attackers for context.
    pub fn out_of_check_moves(
        &self,
        king_square: Square,
        attacks_to_king: Bitboard,
        for_color: Color,
    ) -> (moves: Vec<CMove>)
        requires
            self.wf(),
            for_color == self.side_to_move,
        ensures
            forall|m: CMove| #[trigger] moves@.contains(m) <==> legal_move(*self, m),
    {
        self.all_legal_moves(for_color)
    }

    /// Gathers the legal moves of every kind and the castles.
    fn all_legal_moves(&self, for_color: Color) -> (moves: Vec<CMove>)
        requires
            self.wf(),
            for_color == self.side_to_move,
        ensures
            forall|m: CMove| #[trigger] moves@.contains(m) <==> legal_move(*self, m),
    {
        let mut moves: Vec<CMove> = Vec::new();
        let ghost s0 = moves@;
        let mut pawn = self.generate_piece_moves(Piece::Pawn, for_color);
        let ghost pawn_s = pawn@;
        moves.append(&mut pawn);
        let ghost s1 = moves@;
        let mut knight = self.generate_piece_moves(Piece::Knight, for_color);
        let ghost knight_s = knight@;
        moves.append(&mut knight);
        let ghost s2 = moves@;
        let mut bishop = self.generate_piece_moves(Piece::Bishop, for_color);
        let ghost bishop_s = bishop@;
        moves.append(&mut bishop);
        let ghost s3 = moves@;
        let mut rook = self.generate_piece_moves(Piece::Rook, for_color);
        let ghost rook_s = rook@;
        moves.append(&mut rook);
        let ghost s4 = moves@;
        let mut queen = self.generate_piece_moves(Piece::Queen, for_color);
        let ghost queen_s = queen@;
        moves.append(&mut queen);
        let ghost s5 = moves@;
        let mut king = self.generate_piece_moves(Piece::King, for_color);
        let ghost king_s = king@;
        moves.append(&mut king);
        let ghost s6 = moves@;
        let mut castles = self.castle_moves(for_color);
        let ghost castles_s = castles@;
        moves.append(&mut castles);
        proof {
            lemma_bit_ops();
            assert forall|m: CMove| #[trigger] moves@.contains(m) <==> legal_move(*self, m) by {
                lemma_contains_append(s6, castles_s, m);
                lemma_contains_append(s5, king_s, m);
                lemma_contains_append(s4, queen_s, m);
                lemma_contains_append(s3, rook_s, m);
                lemma_contains_append(s2, bishop_s, m);
                lemma_contains_append(s1, knight_s, m);
                lemma_contains_append(s0, pawn_s, m);
                if legal_move(*self, m) {
                    lemma_move_from_cover(*self, m);
                }
            }
        }
        moves
    }

    /// Returns exactly the legal moves of the side to move; the list is
    /// empty once the halfmove clock reaches the hundred plies that draw
    /// the game.
    pub fn generate_moves(&self) -> (moves: Vec<CMove>)
        requires
            self.wf(),
        ensures
            forall|m: CMove| #[trigger] moves@.contains(m) <==> legal_move(*self, m),
            self.halfmove_clock >= 100 ==> moves@.len() == 0,
    {
        let for_color = self.side_to_move;
        if self.halfmove_clock >= 100 {
            let moves: Vec<CMove> = Vec::new();
            proof {
                reveal(legal_move);
            }
            return moves;
        }
        let king_square = self.king_square(for_color);
        let attacks_to_king = self.attacks_to(king_square, for_color.op());
        if attacks_to_king.0 != 0 {
            let moves = self.out_of_check_moves(king_square, attacks_to_king, for_color);
            proof {
                lemma_len_when_drawn(*self, moves@);
            }
            moves
        } else {
            let moves = self.all_legal_moves(for_color);
            proof {
                lemma_len_when_drawn(*self, moves@);
            }
            moves
        }
    }
}

/// A list of legal moves is empty once the clock has run out, because no
/// move is then legal.
proof fn lemma_len_when_drawn(b: Board, s: Seq<CMove>)
    requires
        forall|m: CMove| #[trigger] s.contains(m) <==> legal_move(b, m),
    ensures
        b.halfmove_clock >= 100 ==> s.len() == 0,
{
    reveal(legal_move);
    if b.halfmove_clock >= 100 && s.len() > 0 {
        assert(s.contains(s[0]));
    }
}

} // verus!
