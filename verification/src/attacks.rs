//! The attack engine: blocked rays, leaper targets, attackers of a square,
//! x-ray attacks and pin detection.

use vstd::prelude::*;
use crate::bits::{bit64, lemma_bit_ops, lemma_or_assoc};
use crate::bitboard::{
    Bitboard, sout_one_spec, nort_one_spec, east_one_spec, west_one_spec, noea_one_spec,
    soea_one_spec, sowe_one_spec, nowe_one_spec, NOT_A_FILE, NOT_H_FILE,
};
use crate::board::Board;
use crate::utils::{Color, Dir, Square};
use vstd::std_specs::bits::{u64_trailing_zeros, u64_leading_zeros};

verus! {

/// One masked step of every square of `x` in direction `d`.
pub open spec fn dir_shift(d: Dir, x: u64) -> u64 {
    match d {
        Dir::Nort => nort_one_spec(x),
        Dir::Noea => noea_one_spec(x),
        Dir::East => east_one_spec(x),
        Dir::Soea => soea_one_spec(x),
        Dir::Sout => sout_one_spec(x),
        Dir::Sowe => sowe_one_spec(x),
        Dir::West => west_one_spec(x),
        Dir::Nowe => nowe_one_spec(x),
    }
}

/// The direction that walks each step back.
pub open spec fn opp_dir(d: Dir) -> Dir {
    match d {
        Dir::Nort => Dir::Sout,
        Dir::Noea => Dir::Sowe,
        Dir::East => Dir::West,
        Dir::Soea => Dir::Nowe,
        Dir::Sout => Dir::Nort,
        Dir::Sowe => Dir::Noea,
        Dir::West => Dir::East,
        Dir::Nowe => Dir::Soea,
    }
}

/// All squares strictly beyond the squares of `m` in direction `d`: seven
/// masked steps reach across the whole board.
pub open spec fn ray_of(d: Dir, m: u64) -> u64 {
    let s1 = dir_shift(d, m);
    let s2 = dir_shift(d, s1);
    let s3 = dir_shift(d, s2);
    let s4 = dir_shift(d, s3);
    let s5 = dir_shift(d, s4);
    let s6 = dir_shift(d, s5);
    let s7 = dir_shift(d, s6);
    s1 | s2 | s3 | s4 | s5 | s6 | s7
}

/// The ray from square `sq` in direction `d`, cut off just past the first
/// square of `occ` it meets: the blocker stays in the set.
pub open spec fn ray_attacks_spec(d: Dir, sq: u64, occ: u64) -> u64 {
    let a = ray_of(d, 1u64 << sq);
    let blocking = a & occ;
    if blocking == 0 {
        a
    } else {
        let blocker = if d.delta() > 0 {
            u64_trailing_zeros(blocking) as u64
        } else {
            (63 - u64_leading_zeros(blocking)) as u64
        };
        a ^ ray_of(d, 1u64 << blocker)
    }
}

/// Diagonal attacks (positive slope) from `sq` under occupancy `occ`.
pub open spec fn diag_attacks_spec(sq: u64, occ: u64) -> u64 {
    ray_attacks_spec(Dir::Noea, sq, occ) | ray_attacks_spec(Dir::Sowe, sq, occ)
}

/// Antidiagonal attacks (negative slope) from `sq` under occupancy `occ`.
pub open spec fn anti_diag_attacks_spec(sq: u64, occ: u64) -> u64 {
    ray_attacks_spec(Dir::Nowe, sq, occ) | ray_attacks_spec(Dir::Soea, sq, occ)
}

/// File attacks from `sq` under occupancy `occ`.
pub open spec fn file_attacks_spec(sq: u64, occ: u64) -> u64 {
    ray_attacks_spec(Dir::Nort, sq, occ) | ray_attacks_spec(Dir::Sout, sq, occ)
}

/// Rank attacks from `sq` under occupancy `occ`.
pub open spec fn rank_attacks_spec(sq: u64, occ: u64) -> u64 {
    ray_attacks_spec(Dir::East, sq, occ) | ray_attacks_spec(Dir::West, sq, occ)
}

/// Bishop attacks from `sq` under occupancy `occ`.
pub open spec fn bishop_attacks_spec(sq: u64, occ: u64) -> u64 {
    diag_attacks_spec(sq, occ) | anti_diag_attacks_spec(sq, occ)
}

/// Rook attacks from `sq` under occupancy `occ`.
pub open spec fn rook_attacks_spec(sq: u64, occ: u64) -> u64 {
    file_attacks_spec(sq, occ) | rank_attacks_spec(sq, occ)
}

/// Queen attacks from `sq` under occupancy `occ`.
pub open spec fn queen_attacks_spec(sq: u64, occ: u64) -> u64 {
    rook_attacks_spec(sq, occ) | bishop_attacks_spec(sq, occ)
}

/// The squares pawns of color `c` standing on `m` attack.
pub open spec fn pawn_attacks_spec(c: Color, m: u64) -> u64 {
    match c {
        Color::White => noea_one_spec(m) | nowe_one_spec(m),
        Color::Black => soea_one_spec(m) | sowe_one_spec(m),
    }
}

/// The squares knights standing on `m` attack.
pub open spec fn knight_attacks_spec(m: u64) -> u64 {
    let n2 = nort_one_spec(nort_one_spec(m));
    let s2 = sout_one_spec(sout_one_spec(m));
    let e2 = east_one_spec(east_one_spec(m));
    let w2 = west_one_spec(west_one_spec(m));
    east_one_spec(n2) | west_one_spec(n2) | east_one_spec(s2) | west_one_spec(s2) | nort_one_spec(
        e2,
    ) | sout_one_spec(e2) | nort_one_spec(w2) | sout_one_spec(w2)
}

/// The squares kings standing on `m` attack.
pub open spec fn king_attacks_spec(m: u64) -> u64 {
    nort_one_spec(m) | noea_one_spec(m) | east_one_spec(m) | soea_one_spec(m) | sout_one_spec(m)
        | sowe_one_spec(m) | west_one_spec(m) | nowe_one_spec(m)
}

/// The pieces of color `by` that attack square `sq` when the occupancy is
/// `occ` (pseudo-legal rules; pins and turn play no part).
pub open spec fn attacks_to_spec(b: Board, sq: u64, by: Color, occ: u64) -> u64 {
    b.color_of(by) & (pawn_attacks_spec(by.opp(), 1u64 << sq) & b.pawn_bb | knight_attacks_spec(
        1u64 << sq,
    ) & b.knight_bb | king_attacks_spec(1u64 << sq) & b.king_bb | bishop_attacks_spec(sq, occ) & (
    b.bishop_bb | b.queen_bb) | rook_attacks_spec(sq, occ) & (b.rook_bb | b.queen_bb))
}

/// Rook attacks from `sq` that may pass through the first blocker of
/// `blockers` on each ray.
pub open spec fn xray_rook_attacks_spec(b: Board, blockers: u64, sq: u64) -> u64 {
    let attacks = rook_attacks_spec(sq, b.occupied_bb);
    let actual = attacks & blockers;
    attacks ^ rook_attacks_spec(sq, actual ^ b.occupied_bb)
}

/// Bishop attacks from `sq` that may pass through the first blocker of
/// `blockers` on each ray.
pub open spec fn xray_bishop_attacks_spec(b: Board, blockers: u64, sq: u64) -> u64 {
    let attacks = bishop_attacks_spec(sq, b.occupied_bb);
    let actual = attacks & blockers;
    attacks ^ bishop_attacks_spec(sq, actual ^ b.occupied_bb)
}

/// The squares strictly between `a` and `to` along a cardinal or diagonal
/// ray, or the empty set when no ray joins them.
pub open spec fn in_between_spec(a: u64, to: u64) -> u64 {
    if bit64(ray_of(Dir::Nort, 1u64 << a), to) {
        ray_of(Dir::Nort, 1u64 << a) & ray_of(Dir::Sout, 1u64 << to)
    } else if bit64(ray_of(Dir::Noea, 1u64 << a), to) {
        ray_of(Dir::Noea, 1u64 << a) & ray_of(Dir::Sowe, 1u64 << to)
    } else if bit64(ray_of(Dir::East, 1u64 << a), to) {
        ray_of(Dir::East, 1u64 << a) & ray_of(Dir::West, 1u64 << to)
    } else if bit64(ray_of(Dir::Soea, 1u64 << a), to) {
        ray_of(Dir::Soea, 1u64 << a) & ray_of(Dir::Nowe, 1u64 << to)
    } else if bit64(ray_of(Dir::Sout, 1u64 << a), to) {
        ray_of(Dir::Sout, 1u64 << a) & ray_of(Dir::Nort, 1u64 << to)
    } else if bit64(ray_of(Dir::Sowe, 1u64 << a), to) {
        ray_of(Dir::Sowe, 1u64 << a) & ray_of(Dir::Noea, 1u64 << to)
    } else if bit64(ray_of(Dir::West, 1u64 << a), to) {
        ray_of(Dir::West, 1u64 << a) & ray_of(Dir::East, 1u64 << to)
    } else if bit64(ray_of(Dir::Nowe, 1u64 << a), to) {
        ray_of(Dir::Nowe, 1u64 << a) & ray_of(Dir::Soea, 1u64 << to)
    } else {
        0u64
    }
}

/// The pieces of `c` pinned to their king on `ksq`: for each x-ray pinner,
/// the own pieces between it and the king.
pub open spec fn pins_fold(own: u64, ksq: u64, pinners: u64) -> u64
    decreases pinners,
    via pins_fold_dec
{
    if pinners == 0 {
        0u64
    } else {
        (in_between_spec(u64_trailing_zeros(pinners) as u64, ksq) & own) | pins_fold(
            own,
            ksq,
            pinners & ((pinners - 1) as u64),
        )
    }
}

#[via_fn]
proof fn pins_fold_dec(own: u64, ksq: u64, pinners: u64) {
    assert(pinners != 0 ==> (pinners & ((pinners - 1) as u64)) < pinners) by (bit_vector);
}

/// All pieces of color `c` pinned against the king on square `ksq`.
pub open spec fn pins_spec(b: Board, c: Color, ksq: u64) -> u64 {
    let own = b.color_of(c);
    let op_rq = (b.rook_bb | b.queen_bb) & b.color_of(c.opp());
    let op_bq = (b.bishop_bb | b.queen_bb) & b.color_of(c.opp());
    let rook_pinners = xray_rook_attacks_spec(b, own, ksq) & op_rq;
    let bishop_pinners = xray_bishop_attacks_spec(b, own, ksq) & op_bq;
    pins_fold(own, ksq, rook_pinners) | pins_fold(own, ksq, bishop_pinners)
}

/// One masked step of every square of `x` in direction `d`.
fn shift_one(d: Dir, x: u64) -> (r: u64)
    ensures
        r == dir_shift(d, x),
{
    match d {
        Dir::Nort => x << 8,
        Dir::Noea => (x << 9) & NOT_A_FILE,
        Dir::East => (x << 1) & NOT_A_FILE,
        Dir::Soea => (x >> 7) & NOT_A_FILE,
        Dir::Sout => x >> 8,
        Dir::Sowe => (x >> 9) & NOT_H_FILE,
        Dir::West => (x >> 1) & NOT_H_FILE,
        Dir::Nowe => (x << 7) & NOT_H_FILE,
    }
}

/// The full ray beyond the squares of `m` in direction `d`.
pub fn ray_cast(d: Dir, m: u64) -> (r: u64)
    ensures
        r == ray_of(d, m),
{
    let s1 = shift_one(d, m);
    let s2 = shift_one(d, s1);
    let s3 = shift_one(d, s2);
    let s4 = shift_one(d, s3);
    let s5 = shift_one(d, s4);
    let s6 = shift_one(d, s5);
    let s7 = shift_one(d, s6);
    s1 | s2 | s3 | s4 | s5 | s6 | s7
}

impl Board {
    /// Returns the ray attacks from square `s` in direction `d`: the ray up
    /// to and including the first piece of the occupancy (the given one, or
    /// the board's own when `occupied_bb` is `None`).
    pub fn ray_attacks(&self, d: Dir, s: Square, occupied_bb: Option<Bitboard>) -> (r: Bitboard)
        ensures
            r.0 == ray_attacks_spec(d, s.index_of(), match occupied_bb {
                Some(o) => o.0,
                None => self.occupied_bb,
            }),
    {
        let occ: u64 = match occupied_bb {
            Some(o) => o.0,
            None => self.occupied_bb,
        };
        let attacks = ray_cast(d, 1u64 << self_index(s));
        let blocking = attacks & occ;
        if blocking == 0 {
            Bitboard(attacks)
        } else {
            let blocker: u32 = if d.pos() {
                proof {
                    vstd::std_specs::bits::axiom_u64_trailing_zeros(blocking);
                }
                blocking.trailing_zeros()
            } else {
                proof {
                    vstd::std_specs::bits::axiom_u64_leading_zeros(blocking);
                }
                63 - blocking.leading_zeros()
            };
            Bitboard(attacks ^ ray_cast(d, 1u64 << blocker))
        }
    }

    /// Returns the diagonal attacks (positive slope) from square `s`.
    pub fn diag_attacks(&self, s: Square, occupied_bb: Option<Bitboard>) -> (r: Bitboard)
        ensures
            r.0 == diag_attacks_spec(s.index_of(), match occupied_bb {
                Some(o) => o.0,
                None => self.occupied_bb,
            }),
    {
        Bitboard(self.ray_attacks(Dir::Noea, s, occupied_bb).0 | self.ray_attacks(
            Dir::Sowe,
            s,
            occupied_bb,
        ).0)
    }

    /// Returns the antidiagonal attacks (negative slope) from square `s`.
    pub fn anti_diag_attacks(&self, s: Square, occupied_bb: Option<Bitboard>) -> (r: Bitboard)
        ensures
            r.0 == anti_diag_attacks_spec(s.index_of(), match occupied_bb {
                Some(o) => o.0,
                None => self.occupied_bb,
            }),
    {
        Bitboard(self.ray_attacks(Dir::Nowe, s, occupied_bb).0 | self.ray_attacks(
            Dir::Soea,
            s,
            occupied_bb,
        ).0)
    }

    /// Returns the file attacks from square `s`.
    pub fn file_attacks(&self, s: Square, occupied_bb: Option<Bitboard>) -> (r: Bitboard)
        ensures
            r.0 == file_attacks_spec(s.index_of(), match occupied_bb {
                Some(o) => o.0,
                None => self.occupied_bb,
            }),
    {
        Bitboard(self.ray_attacks(Dir::Nort, s, occupied_bb).0 | self.ray_attacks(
            Dir::Sout,
            s,
            occupied_bb,
        ).0)
    }

    /// Returns the rank attacks from square `s`.
    pub fn rank_attacks(&self, s: Square, occupied_bb: Option<Bitboard>) -> (r: Bitboard)
        ensures
            r.0 == rank_attacks_spec(s.index_of(), match occupied_bb {
                Some(o) => o.0,
                None => self.occupied_bb,
            }),
    {
        Bitboard(self.ray_attacks(Dir::East, s, occupied_bb).0 | self.ray_attacks(
            Dir::West,
            s,
            occupied_bb,
        ).0)
    }

    /// Returns the bishop attacks from square `s`.
    pub fn bishop_attacks(&self, s: Square, occupied_bb: Option<Bitboard>) -> (r: Bitboard)
        ensures
            r.0 == bishop_attacks_spec(s.index_of(), match occupied_bb {
                Some(o) => o.0,
                None => self.occupied_bb,
            }),
    {
        Bitboard(self.diag_attacks(s, occupied_bb).0 | self.anti_diag_attacks(s, occupied_bb).0)
    }

    /// Returns the rook attacks from square `s`.
    pub fn rook_attacks(&self, s: Square, occupied_bb: Option<Bitboard>) -> (r: Bitboard)
        ensures
            r.0 == rook_attacks_spec(s.index_of(), match occupied_bb {
                Some(o) => o.0,
                None => self.occupied_bb,
            }),
    {
        Bitboard(self.file_attacks(s, occupied_bb).0 | self.rank_attacks(s, occupied_bb).0)
    }

    /// Returns the queen attacks from square `s`.
    pub fn queen_attacks(&self, s: Square, occupied_bb: Option<Bitboard>) -> (r: Bitboard)
        ensures
            r.0 == queen_attacks_spec(s.index_of(), match occupied_bb {
                Some(o) => o.0,
                None => self.occupied_bb,
            }),
    {
        Bitboard(self.rook_attacks(s, occupied_bb).0 | self.bishop_attacks(s, occupied_bb).0)
    }

    /// Returns the squares a pawn of color `c` on square `s` attacks.
    pub fn pawn_attacks(s: Square, c: Color) -> (r: Bitboard)
        ensures
            r.0 == pawn_attacks_spec(c, 1u64 << s.index_of()),
    {
        let m: u64 = 1u64 << self_index(s);
        match c {
            Color::White => Bitboard(((m << 9) & NOT_A_FILE) | ((m << 7) & NOT_H_FILE)),
            Color::Black => Bitboard(((m >> 7) & NOT_A_FILE) | ((m >> 9) & NOT_H_FILE)),
        }
    }

    /// Returns the squares a knight on square `s` attacks.
    pub fn knight_attacks(s: Square) -> (r: Bitboard)
        ensures
            r.0 == knight_attacks_spec(1u64 << s.index_of()),
    {
        let m: u64 = 1u64 << self_index(s);
        let n2 = (m << 8) << 8;
        let s2 = (m >> 8) >> 8;
        let e2 = ((m << 1) & NOT_A_FILE) << 1 & NOT_A_FILE;
        let w2 = ((m >> 1) & NOT_H_FILE) >> 1 & NOT_H_FILE;
        Bitboard(
            ((n2 << 1) & NOT_A_FILE) | ((n2 >> 1) & NOT_H_FILE) | ((s2 << 1) & NOT_A_FILE) | ((s2
                >> 1) & NOT_H_FILE) | (e2 << 8) | (e2 >> 8) | (w2 << 8) | (w2 >> 8),
        )
    }

    /// Returns the squares a king on square `s` attacks.
    pub fn king_attacks(s: Square) -> (r: Bitboard)
        ensures
            r.0 == king_attacks_spec(1u64 << s.index_of()),
    {
        let m: u64 = 1u64 << self_index(s);
        Bitboard(
            (m << 8) | ((m << 9) & NOT_A_FILE) | ((m << 1) & NOT_A_FILE) | ((m >> 7) & NOT_A_FILE)
                | (m >> 8) | ((m >> 9) & NOT_H_FILE) | ((m >> 1) & NOT_H_FILE) | ((m << 7)
                & NOT_H_FILE),
        )
    }

    /// Returns the pieces of `by_color` that attack square `s` under the
    /// given occupancy.
    pub fn attacks_to_occ(&self, s: Square, by_color: Color, occ: u64) -> (r: Bitboard)
        ensures
            r.0 == attacks_to_spec(*self, s.index_of(), by_color, occ),
    {
        let sq_attacks_b = self.bishop_attacks(s, Some(Bitboard(occ))).0;
        let sq_attacks_r = self.rook_attacks(s, Some(Bitboard(occ))).0;
        Bitboard(
            self.color_bb(by_color).0 & (Board::pawn_attacks(s, by_color.op()).0 & self.pawn_bb
                | Board::knight_attacks(s).0 & self.knight_bb | Board::king_attacks(s).0
                & self.king_bb | sq_attacks_b & (self.bishop_bb | self.queen_bb) | sq_attacks_r & (
            self.rook_bb | self.queen_bb)),
        )
    }

    /// Returns the pieces of `by_color` that attack square `s` on the board
    /// as it stands.
    pub fn attacks_to(&self, s: Square, by_color: Color) -> (r: Bitboard)
        ensures
            r.0 == attacks_to_spec(*self, s.index_of(), by_color, self.occupied_bb),
    {
        self.attacks_to_occ(s, by_color, self.occupied_bb)
    }

    /// True iff side `by_side` attacks square `s` under the given occupancy.
    pub fn attacked(&self, s: Square, by_side: Color, occ: u64) -> (r: bool)
        ensures
            r == (attacks_to_spec(*self, s.index_of(), by_side, occ) != 0),
    {
        self.attacks_to_occ(s, by_side, occ).0 != 0
    }

    /// Returns the rook attacks from `rook_square` that may pass through the
    /// first blocker of `blockers` on each ray.
    pub fn xray_rook_attacks(&self, blockers: Bitboard, rook_square: Square) -> (r: Bitboard)
        ensures
            r.0 == xray_rook_attacks_spec(*self, blockers.0, rook_square.index_of()),
    {
        let attacks = self.rook_attacks(rook_square, None).0;
        let actual_blockers = attacks & blockers.0;
        Bitboard(
            attacks ^ self.rook_attacks(
                rook_square,
                Some(Bitboard(actual_blockers ^ self.occupied_bb)),
            ).0,
        )
    }

    /// Returns the bishop attacks from `bishop_square` that may pass through
    /// the first blocker of `blockers` on each ray.
    pub fn xray_bishop_attacks(&self, blockers: Bitboard, bishop_square: Square) -> (r: Bitboard)
        ensures
            r.0 == xray_bishop_attacks_spec(*self, blockers.0, bishop_square.index_of()),
    {
        let attacks = self.bishop_attacks(bishop_square, None).0;
        let actual_blockers = attacks & blockers.0;
        Bitboard(
            attacks ^ self.bishop_attacks(
                bishop_square,
                Some(Bitboard(actual_blockers ^ self.occupied_bb)),
            ).0,
        )
    }

    /// Returns the squares strictly between `from` and `to` along a ray, or
    /// the empty board when none joins them.
    pub fn in_between(from: Square, to: Square) -> (r: Bitboard)
        ensures
            r.0 == in_between_spec(from.index_of(), to.index_of()),
    {
        let fm: u64 = 1u64 << self_index(from);
        let tm: u64 = 1u64 << self_index(to);
        let r_nort = ray_cast(Dir::Nort, fm);
        if r_nort & tm != 0 {
            return Bitboard(r_nort & ray_cast(Dir::Sout, tm));
        }
        let r_noea = ray_cast(Dir::Noea, fm);
        if r_noea & tm != 0 {
            return Bitboard(r_noea & ray_cast(Dir::Sowe, tm));
        }
        let r_east = ray_cast(Dir::East, fm);
        if r_east & tm != 0 {
            return Bitboard(r_east & ray_cast(Dir::West, tm));
        }
        let r_soea = ray_cast(Dir::Soea, fm);
        if r_soea & tm != 0 {
            return Bitboard(r_soea & ray_cast(Dir::Nowe, tm));
        }
        let r_sout = ray_cast(Dir::Sout, fm);
        if r_sout & tm != 0 {
            return Bitboard(r_sout & ray_cast(Dir::Nort, tm));
        }
        let r_sowe = ray_cast(Dir::Sowe, fm);
        if r_sowe & tm != 0 {
            return Bitboard(r_sowe & ray_cast(Dir::Noea, tm));
        }
        let r_west = ray_cast(Dir::West, fm);
        if r_west & tm != 0 {
            return Bitboard(r_west & ray_cast(Dir::East, tm));
        }
        let r_nowe = ray_cast(Dir::Nowe, fm);
        if r_nowe & tm != 0 {
            return Bitboard(r_nowe & ray_cast(Dir::Soea, tm));
        }
        Bitboard(0)
    }

    /// Returns the pieces of `on_color` pinned against their king on
    /// `king_square`.
    pub fn pins(&self, on_color: Color, king_square: Square) -> (r: Bitboard)
        ensures
            r.0 == pins_spec(*self, on_color, king_square.index_of()),
    {
        let own: u64 = self.color_bb(on_color).0;
        let ksq: u64 = king_square.index() as u64;
        let op_rq: u64 = (self.rook_bb | self.queen_bb) & self.color_bb(on_color.op()).0;
        let op_bq: u64 = (self.bishop_bb | self.queen_bb) & self.color_bb(on_color.op()).0;
        let rook_pinners: u64 = self.xray_rook_attacks(Bitboard(own), king_square).0 & op_rq;
        let bishop_pinners: u64 = self.xray_bishop_attacks(Bitboard(own), king_square).0 & op_bq;
        let a = self.pin_targets(own, king_square, rook_pinners);
        let b = self.pin_targets(own, king_square, bishop_pinners);
        Bitboard(a | b)
    }

    /// Accumulates, for each pinner square of `pinners`, the own pieces
    /// between it and the king.
    fn pin_targets(&self, own: u64, king_square: Square, pinners: u64) -> (r: u64)
        ensures
            r == pins_fold(own, king_square.index_of(), pinners),
    {
        let mut pinned: u64 = 0;
        let mut left: u64 = pinners;
        let ghost ksq: u64 = king_square.index_of();
        proof {
            lemma_bit_ops();
        }
        while left != 0
            invariant
                pinned | pins_fold(own, ksq, left) == pins_fold(own, ksq, pinners),
                ksq == king_square.index_of(),
            decreases left,
        {
            proof {
                vstd::std_specs::bits::axiom_u64_trailing_zeros(left);
                assert(left != 0 ==> (left & ((left - 1) as u64)) < left) by (bit_vector);
            }
            let sq = left.trailing_zeros();
            let contribution = Board::in_between(Square::from_index(sq as u8), king_square).0
                & own;
            proof {
                lemma_or_assoc(pinned, contribution, pins_fold(own, ksq, left & ((left - 1) as u64)));
            }
            pinned = pinned | contribution;
            left = left & (left - 1);
        }
        proof {
            lemma_bit_ops();
        }
        pinned
    }
}

/// Returns the index of square `s` as a `u64` shift amount.
fn self_index(s: Square) -> (i: u64)
    ensures
        i == s.index_of(),
        i < 64,
{
    s.index() as u64
}

} // verus!
