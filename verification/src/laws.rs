//! The universal position invariants, stated as standalone theorems. Each
//! holds of the starting position and of every position a sequence of
//! generated moves reaches, because `Board::new` and `from_piece_list`
//! establish `wf`, `generate_moves` returns only moves satisfying `move_ok`,
//! and `lemma_apply_wf` carries `wf` through every application.

use vstd::prelude::*;
use crate::bits::{bit64, pop64, lemma_bit_ops, lemma_bits_eq, lemma_pop64_disjoint,
    lemma_pop64_one_bit};
use crate::bitboard::RANK_1_AND_8;
use crate::board::{Board, board_of, kind_mask, color_mask};
use crate::utils::{CPiece, Color, Piece, Square};

verus! {

/// The white and black piece counts add up to the occupancy count.
pub proof fn lemma_color_counts(b: Board)
    requires
        b.wf(),
    ensures
        pop64(b.white_bb) + pop64(b.black_bb) == pop64(b.occupied_bb),
{
    lemma_pop64_disjoint(b.white_bb, b.black_bb);
}

/// No square holds pieces of both colors.
pub proof fn lemma_colors_disjoint(b: Board)
    requires
        b.wf(),
    ensures
        b.white_bb & b.black_bb == 0,
{
}

/// The empty board is the complement of the occupied board.
pub proof fn lemma_empty_is_complement(b: Board)
    requires
        b.wf(),
    ensures
        b.empty_bb == !b.occupied_bb,
{
}

/// Each side has exactly one king.
pub proof fn lemma_one_king_each(b: Board)
    requires
        b.wf(),
    ensures
        pop64(b.king_bb & b.white_bb) == 1,
        pop64(b.king_bb & b.black_bb) == 1,
{
    lemma_pop64_one_bit(b.king_bb & b.white_bb);
    lemma_pop64_one_bit(b.king_bb & b.black_bb);
}

/// No pawn stands on the first or the eighth rank.
pub proof fn lemma_no_pawn_on_back_rank(b: Board)
    requires
        b.wf(),
    ensures
        b.pawn_bb & RANK_1_AND_8 == 0,
{
}

/// Which square of the first `n` holds a piece of kind `p`, bit by bit.
proof fn lemma_kind_mask_bits(list: Seq<Option<CPiece>>, p: Piece, n: int, j: u64)
    requires
        0 <= n <= 64,
        j < 64,
    ensures
        bit64(kind_mask(list, p, n), j) == (j < n && match list[j as int] {
            Some(cp) => cp.0 == p,
            None => false,
        }),
    decreases n,
{
    lemma_bit_ops();
    if n > 0 {
        lemma_kind_mask_bits(list, p, n - 1, j);
    }
}

/// Which square of the first `n` holds a piece of color `c`, bit by bit.
proof fn lemma_color_mask_bits(list: Seq<Option<CPiece>>, c: Color, n: int, j: u64)
    requires
        0 <= n <= 64,
        j < 64,
    ensures
        bit64(color_mask(list, c, n), j) == (j < n && match list[j as int] {
            Some(cp) => cp.1 == c,
            None => false,
        }),
    decreases n,
{
    lemma_bit_ops();
    if n > 0 {
        lemma_color_mask_bits(list, c, n - 1, j);
    }
}

/// On a well-formed board, the occupant list determines each kind board.
proof fn lemma_kind_mask_recovers(b: Board, list: Seq<Option<CPiece>>, p: Piece)
    requires
        b.wf(),
        list.len() == 64,
        forall|i: int| 0 <= i < 64 ==> list[i] == b.spec_piece_on(i as u64),
    ensures
        kind_mask(list, p, 64) == b.kind_bb(p),
{
    lemma_bit_ops();
    assert forall|j: u64| j < 64 implies bit64(kind_mask(list, p, 64), j) == bit64(
        b.kind_bb(p),
        j,
    ) by {
        lemma_kind_mask_bits(list, p, 64, j);
        assert(list[j as int] == b.spec_piece_on(j));
        assert(bit64(b.white_bb | b.black_bb, j) == bit64(b.occupied_bb, j));
        assert(bit64(
            b.pawn_bb | b.knight_bb | b.bishop_bb | b.rook_bb | b.queen_bb | b.king_bb,
            j,
        ) == bit64(b.occupied_bb, j));
        assert(!bit64(b.pawn_bb & b.knight_bb, j));
        assert(!bit64(b.pawn_bb & b.bishop_bb, j));
        assert(!bit64(b.pawn_bb & b.rook_bb, j));
        assert(!bit64(b.pawn_bb & b.queen_bb, j));
        assert(!bit64(b.pawn_bb & b.king_bb, j));
        assert(!bit64(b.knight_bb & b.bishop_bb, j));
        assert(!bit64(b.knight_bb & b.rook_bb, j));
        assert(!bit64(b.knight_bb & b.queen_bb, j));
        assert(!bit64(b.knight_bb & b.king_bb, j));
        assert(!bit64(b.bishop_bb & b.rook_bb, j));
        assert(!bit64(b.bishop_bb & b.queen_bb, j));
        assert(!bit64(b.bishop_bb & b.king_bb, j));
        assert(!bit64(b.rook_bb & b.queen_bb, j));
        assert(!bit64(b.rook_bb & b.king_bb, j));
        assert(!bit64(b.queen_bb & b.king_bb, j));
    };
    lemma_bits_eq(kind_mask(list, p, 64), b.kind_bb(p));
}

/// On a well-formed board, the occupant list determines each color board.
proof fn lemma_color_mask_recovers(b: Board, list: Seq<Option<CPiece>>, c: Color)
    requires
        b.wf(),
        list.len() == 64,
        forall|i: int| 0 <= i < 64 ==> list[i] == b.spec_piece_on(i as u64),
    ensures
        color_mask(list, c, 64) == b.color_of(c),
{
    lemma_bit_ops();
    assert forall|j: u64| j < 64 implies bit64(color_mask(list, c, 64), j) == bit64(
        b.color_of(c),
        j,
    ) by {
        lemma_color_mask_bits(list, c, 64, j);
        assert(list[j as int] == b.spec_piece_on(j));
        assert(!bit64(b.white_bb & b.black_bb, j));
        assert(bit64(b.white_bb | b.black_bb, j) == bit64(b.occupied_bb, j));
    };
    lemma_bits_eq(color_mask(list, c, 64), b.color_of(c));
}

/// Round trip: rebuilding a well-formed position from its own piece list and
/// scalars gives the position back.
pub proof fn lemma_piece_list_round_trip(
    b: Board,
    list: Seq<Option<CPiece>>,
    ep_square: Option<Square>,
)
    requires
        b.wf(),
        list.len() == 64,
        forall|i: int| 0 <= i < 64 ==> list[i] == b.spec_piece_on(i as u64),
        match ep_square {
            None => b.en_passant_bb == 0,
            Some(s) => s.index_of() < 64 && b.en_passant_bb == 1u64 << s.index_of(),
        },
    ensures
        board_of(list, b.side_to_move, b.castling_rights, ep_square, b.halfmove_clock) == b,
{
    lemma_kind_mask_recovers(b, list, Piece::Pawn);
    lemma_kind_mask_recovers(b, list, Piece::Knight);
    lemma_kind_mask_recovers(b, list, Piece::Bishop);
    lemma_kind_mask_recovers(b, list, Piece::Rook);
    lemma_kind_mask_recovers(b, list, Piece::Queen);
    lemma_kind_mask_recovers(b, list, Piece::King);
    lemma_color_mask_recovers(b, list, Color::White);
    lemma_color_mask_recovers(b, list, Color::Black);
}

} // verus!
