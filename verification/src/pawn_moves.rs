//! Set-parallel pawn computations: push and double-push targets, attack
//! squares, and capture eligibility, each for a whole side's pawns at once.

use vstd::prelude::*;
use crate::bitboard::{
    Bitboard, RANK4, RANK5, nort_one_spec, sout_one_spec, noea_one_spec, nowe_one_spec,
    soea_one_spec, sowe_one_spec,
};
use crate::board::Board;
use crate::utils::Color;

verus! {

impl Board {
    /// The pawns of color `c`.
    pub open spec fn pawns_of(self, c: Color) -> u64 {
        self.pawn_bb & self.color_of(c)
    }

    /// The squares pawns of `c` can be pushed one rank to.
    pub open spec fn pawn_push_targets_spec(self, c: Color) -> u64 {
        match c {
            Color::White => nort_one_spec(self.pawns_of(c)) & self.empty_bb,
            Color::Black => sout_one_spec(self.pawns_of(c)) & self.empty_bb,
        }
    }

    /// The squares pawns of `c` can be double pushed to.
    pub open spec fn pawn_dpush_targets_spec(self, c: Color) -> u64 {
        match c {
            Color::White => nort_one_spec(self.pawn_push_targets_spec(c)) & self.empty_bb & RANK4,
            Color::Black => sout_one_spec(self.pawn_push_targets_spec(c)) & self.empty_bb & RANK5,
        }
    }

    /// The pawns of `c` that can be pushed one rank.
    pub open spec fn pawns_can_push_spec(self, c: Color) -> u64 {
        match c {
            Color::White => sout_one_spec(self.empty_bb) & self.pawns_of(c),
            Color::Black => nort_one_spec(self.empty_bb) & self.pawns_of(c),
        }
    }

    /// The pawns of `c` that can be double pushed.
    pub open spec fn pawns_can_dpush_spec(self, c: Color) -> u64 {
        match c {
            Color::White => sout_one_spec(sout_one_spec(self.empty_bb & RANK4) & self.empty_bb)
                & self.pawns_of(c),
            Color::Black => nort_one_spec(nort_one_spec(self.empty_bb & RANK5) & self.empty_bb)
                & self.pawns_of(c),
        }
    }

    /// The squares pawns of `c` attack toward the east.
    pub open spec fn pawn_east_attack_squares_spec(self, c: Color) -> u64 {
        match c {
            Color::White => noea_one_spec(self.pawns_of(c)),
            Color::Black => soea_one_spec(self.pawns_of(c)),
        }
    }

    /// The squares pawns of `c` attack toward the west.
    pub open spec fn pawn_west_attack_squares_spec(self, c: Color) -> u64 {
        match c {
            Color::White => nowe_one_spec(self.pawns_of(c)),
            Color::Black => sowe_one_spec(self.pawns_of(c)),
        }
    }

    /// Returns the squares pawns of color `c` can be pushed one rank to.
    pub fn pawn_push_targets(&self, c: Color) -> (r: Bitboard)
        ensures
            r.0 == self.pawn_push_targets_spec(c),
    {
        let pawns = self.pawn_bb & self.color_bb(c).0;
        match c {
            Color::White => Bitboard((pawns << 8) & self.empty_bb),
            Color::Black => Bitboard((pawns >> 8) & self.empty_bb),
        }
    }

    /// Returns the squares pawns of color `c` can be double pushed to.
    pub fn pawn_dpush_targets(&self, c: Color) -> (r: Bitboard)
        ensures
            r.0 == self.pawn_dpush_targets_spec(c),
    {
        let push_targets = self.pawn_push_targets(c).0;
        match c {
            Color::White => Bitboard((push_targets << 8) & self.empty_bb & RANK4),
            Color::Black => Bitboard((push_targets >> 8) & self.empty_bb & RANK5),
        }
    }

    /// Returns the pawns of color `c` that can be pushed one rank.
    pub fn pawns_can_push(&self, c: Color) -> (r: Bitboard)
        ensures
            r.0 == self.pawns_can_push_spec(c),
    {
        let pawns = self.pawn_bb & self.color_bb(c).0;
        match c {
            Color::White => Bitboard((self.empty_bb >> 8) & pawns),
            Color::Black => Bitboard((self.empty_bb << 8) & pawns),
        }
    }

    /// Returns the pawns of color `c` that can be double pushed.
    pub fn pawns_can_dpush(&self, c: Color) -> (r: Bitboard)
        ensures
            r.0 == self.pawns_can_dpush_spec(c),
    {
        let pawns = self.pawn_bb & self.color_bb(c).0;
        match c {
            Color::White => {
                let empty_rank3 = ((self.empty_bb & RANK4) >> 8) & self.empty_bb;
                Bitboard((empty_rank3 >> 8) & pawns)
            },
            Color::Black => {
                let empty_rank6 = ((self.empty_bb & RANK5) << 8) & self.empty_bb;
                Bitboard((empty_rank6 << 8) & pawns)
            },
        }
    }

    /// Returns the squares pawns of color `c` attack toward the east.
    pub fn pawn_east_attack_squares(&self, c: Color) -> (r: Bitboard)
        ensures
            r.0 == self.pawn_east_attack_squares_spec(c),
    {
        let pawns = self.pawn_bb & self.color_bb(c).0;
        match c {
            Color::White => Bitboard((pawns << 9) & crate::bitboard::NOT_A_FILE),
            Color::Black => Bitboard((pawns >> 7) & crate::bitboard::NOT_A_FILE),
        }
    }

    /// Returns the squares pawns of color `c` attack toward the west.
    pub fn pawn_west_attack_squares(&self, c: Color) -> (r: Bitboard)
        ensures
            r.0 == self.pawn_west_attack_squares_spec(c),
    {
        let pawns = self.pawn_bb & self.color_bb(c).0;
        match c {
            Color::White => Bitboard((pawns << 7) & crate::bitboard::NOT_H_FILE),
            Color::Black => Bitboard((pawns >> 9) & crate::bitboard::NOT_H_FILE),
        }
    }

    /// Returns every square pawns of color `c` attack.
    pub fn pawn_attack_squares(&self, c: Color) -> (r: Bitboard)
        ensures
            r.0 == self.pawn_west_attack_squares_spec(c) | self.pawn_east_attack_squares_spec(c),
    {
        Bitboard(self.pawn_west_attack_squares(c).0 | self.pawn_east_attack_squares(c).0)
    }

    /// Returns the squares two pawns of color `c` attack at once.
    pub fn pawn_dbl_attack_squares(&self, c: Color) -> (r: Bitboard)
        ensures
            r.0 == self.pawn_west_attack_squares_spec(c) & self.pawn_east_attack_squares_spec(c),
    {
        Bitboard(self.pawn_west_attack_squares(c).0 & self.pawn_east_attack_squares(c).0)
    }

    /// Returns the squares exactly one pawn of color `c` attacks.
    pub fn pawn_single_attack_squares(&self, c: Color) -> (r: Bitboard)
        ensures
            r.0 == self.pawn_west_attack_squares_spec(c) ^ self.pawn_east_attack_squares_spec(c),
    {
        Bitboard(self.pawn_west_attack_squares(c).0 ^ self.pawn_east_attack_squares(c).0)
    }

    /// Returns the safe pawn squares of color `c`: squares `c` attacks with
    /// more pawns than the opponent does.
    pub fn pawn_safe_sqares(&self, c: Color) -> (r: Bitboard)
        ensures
            r.0 == ({
                let dbl = self.pawn_west_attack_squares_spec(c) & self.pawn_east_attack_squares_spec(c);
                let op_any = self.pawn_west_attack_squares_spec(c.opp())
                    | self.pawn_east_attack_squares_spec(c.opp());
                let single = self.pawn_west_attack_squares_spec(c) ^ self.pawn_east_attack_squares_spec(c);
                let op_dbl = self.pawn_west_attack_squares_spec(c.opp())
                    & self.pawn_east_attack_squares_spec(c.opp());
                dbl | !op_any | (single & !op_dbl)
            }),
    {
        Bitboard(
            self.pawn_dbl_attack_squares(c).0 | !self.pawn_attack_squares(c.op()).0 | (
            self.pawn_single_attack_squares(c).0 & !self.pawn_dbl_attack_squares(c.op()).0),
        )
    }

    /// Returns the pawns of color `c` that can capture an enemy pawn toward
    /// the east.
    pub fn pawns_can_capture_pawn_east(&self, c: Color) -> (r: Bitboard)
        ensures
            r.0 == (self.pawns_of(c) & self.pawn_west_attack_squares_spec(c.opp())),
    {
        Bitboard(self.pawn_bb & self.color_bb(c).0 & self.pawn_west_attack_squares(c.op()).0)
    }

    /// Returns the pawns of color `c` that can capture an enemy pawn toward
    /// the west.
    pub fn pawns_can_capture_pawn_west(&self, c: Color) -> (r: Bitboard)
        ensures
            r.0 == (self.pawns_of(c) & self.pawn_east_attack_squares_spec(c.opp())),
    {
        Bitboard(self.pawn_bb & self.color_bb(c).0 & self.pawn_east_attack_squares(c.op()).0)
    }

    /// Returns the pawns of color `c` that can capture an enemy pawn in some
    /// direction.
    pub fn pawns_can_capture_pawn(&self, c: Color) -> (r: Bitboard)
        ensures
            r.0 == (self.pawns_of(c) & (self.pawn_west_attack_squares_spec(c.opp())
                | self.pawn_east_attack_squares_spec(c.opp()))),
    {
        Bitboard(self.pawn_bb & self.color_bb(c).0 & self.pawn_attack_squares(c.op()).0)
    }
}

} // verus!
