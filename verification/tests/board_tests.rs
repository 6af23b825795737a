//! The position type: construction, the invariant, piece lists, accessors
//! and move application.

use chess_core::bitboard::Bitboard;
use chess_core::board::{Board, InvalidPosition};
use chess_core::cmove::CMove;
use chess_core::cmove;
use chess_core::utils::{CPiece, Color, Piece, Square};

fn empty_list() -> Vec<Option<CPiece>> {
    let mut v = Vec::new();
    for _ in 0..64 {
        v.push(None);
    }
    v
}

#[test]
fn start_position_invariants() {
    let b = Board::new();
    assert!(b.wf_check());
    // The color counts add up to the occupancy count, and no square holds
    // pieces of both colors.
    assert_eq!(
        Bitboard(b.color_bb(Color::White).0).count() + Bitboard(b.color_bb(Color::Black).0).count(),
        32
    );
    assert_eq!(b.color_bb(Color::White).0 & b.color_bb(Color::Black).0, 0);
    // One king each.
    assert_eq!(Bitboard(b.piece_bb(Some(Color::White), Piece::King).0).count(), 1);
    assert_eq!(Bitboard(b.piece_bb(Some(Color::Black), Piece::King).0).count(), 1);
    // No pawn on a back rank.
    assert_eq!(b.piece_bb(None, Piece::Pawn).0 & 0xff00_0000_0000_00ff, 0);
    assert_eq!(b.side_to_move(), Color::White);
    assert_eq!(b.halfmove_clock(), 0);
    assert_eq!(b.castling_rights(), 15);
    assert!(b.ep_square().is_none());
}

#[test]
fn piece_on_square_start() {
    let b = Board::new();
    assert_eq!(b.piece_on_square(Square::E1), Some(CPiece(Piece::King, Color::White)));
    assert_eq!(b.piece_on_square(Square::D8), Some(CPiece(Piece::Queen, Color::Black)));
    assert_eq!(b.piece_on_square(Square::A1), Some(CPiece(Piece::Rook, Color::White)));
    assert_eq!(b.piece_on_square(Square::B8), Some(CPiece(Piece::Knight, Color::Black)));
    assert_eq!(b.piece_on_square(Square::C1), Some(CPiece(Piece::Bishop, Color::White)));
    assert_eq!(b.piece_on_square(Square::E2), Some(CPiece(Piece::Pawn, Color::White)));
    assert_eq!(b.piece_on_square(Square::E4), None);
}

#[test]
fn piece_list_round_trip() {
    let b = Board::new();
    let list = b.to_piece_list();
    assert_eq!(list.len(), 64);
    let rebuilt = Board::from_piece_list(&list, Color::White, 15, None, 0).unwrap();
    assert_eq!(rebuilt, b);
}

#[test]
fn piece_list_round_trip_after_moves() {
    let mut b = Board::new();
    b.make_move_mut(&CMove::new(Square::E2, Square::E4, cmove::PAWN_DPUSH));
    b.make_move_mut(&CMove::new(Square::G8, Square::F6, cmove::QUIET));
    b.make_move_mut(&CMove::new(Square::E4, Square::E5, cmove::QUIET));
    b.make_move_mut(&CMove::new(Square::D7, Square::D5, cmove::PAWN_DPUSH));
    let list = b.to_piece_list();
    let rebuilt = Board::from_piece_list(
        &list,
        b.side_to_move(),
        b.castling_rights(),
        b.ep_square(),
        b.halfmove_clock(),
    )
    .unwrap();
    assert_eq!(rebuilt, b);
}

#[test]
fn from_piece_list_rejects_bad_length() {
    let mut list = empty_list();
    list.push(None);
    assert_eq!(
        Board::from_piece_list(&list, Color::White, 0, None, 0),
        Err(InvalidPosition::BadLength)
    );
}

#[test]
fn from_piece_list_rejects_missing_king() {
    let mut list = empty_list();
    list[4] = Some(CPiece(Piece::King, Color::White));
    // No black king at all.
    assert_eq!(
        Board::from_piece_list(&list, Color::White, 0, None, 0),
        Err(InvalidPosition::BadKings)
    );
}

#[test]
fn from_piece_list_rejects_two_kings() {
    let mut list = empty_list();
    list[4] = Some(CPiece(Piece::King, Color::White));
    list[5] = Some(CPiece(Piece::King, Color::White));
    list[60] = Some(CPiece(Piece::King, Color::Black));
    assert_eq!(
        Board::from_piece_list(&list, Color::White, 0, None, 0),
        Err(InvalidPosition::BadKings)
    );
}

#[test]
fn from_piece_list_rejects_back_rank_pawn() {
    let mut list = empty_list();
    list[4] = Some(CPiece(Piece::King, Color::White));
    list[60] = Some(CPiece(Piece::King, Color::Black));
    list[7] = Some(CPiece(Piece::Pawn, Color::Black));
    assert_eq!(
        Board::from_piece_list(&list, Color::White, 0, None, 0),
        Err(InvalidPosition::BadPawns)
    );
}

#[test]
fn from_piece_list_rejects_bad_castling() {
    let mut list = empty_list();
    list[4] = Some(CPiece(Piece::King, Color::White));
    list[60] = Some(CPiece(Piece::King, Color::Black));
    // White king-side right without a rook on h1.
    assert_eq!(
        Board::from_piece_list(&list, Color::White, 1, None, 0),
        Err(InvalidPosition::BadCastling)
    );
}

#[test]
fn from_piece_list_rejects_long_clock() {
    let mut list = empty_list();
    list[4] = Some(CPiece(Piece::King, Color::White));
    list[60] = Some(CPiece(Piece::King, Color::Black));
    assert_eq!(
        Board::from_piece_list(&list, Color::White, 0, None, 101),
        Err(InvalidPosition::BadClock)
    );
}

#[test]
fn from_piece_list_rejects_bad_ep() {
    let mut list = empty_list();
    list[4] = Some(CPiece(Piece::King, Color::White));
    list[60] = Some(CPiece(Piece::King, Color::Black));
    // The en-passant square names an empty square.
    assert_eq!(
        Board::from_piece_list(&list, Color::White, 0, Some(Square::D5), 0),
        Err(InvalidPosition::BadEnPassant)
    );
}

#[test]
fn apply_quiet_move_updates_board() {
    let mut b = Board::new();
    b.make_move_mut(&CMove::new(Square::G1, Square::F3, cmove::QUIET));
    assert!(b.wf_check());
    assert_eq!(b.piece_on_square(Square::G1), None);
    assert_eq!(b.piece_on_square(Square::F3), Some(CPiece(Piece::Knight, Color::White)));
    assert_eq!(b.side_to_move(), Color::Black);
    assert_eq!(b.halfmove_clock(), 1);
    assert!(b.ep_square().is_none());
}

#[test]
fn apply_dpush_sets_ep() {
    let mut b = Board::new();
    b.make_move_mut(&CMove::new(Square::E2, Square::E4, cmove::PAWN_DPUSH));
    assert!(b.wf_check());
    assert_eq!(b.piece_on_square(Square::E4), Some(CPiece(Piece::Pawn, Color::White)));
    assert_eq!(b.ep_square(), Some(Square::E4));
    assert_eq!(b.halfmove_clock(), 0);
}

#[test]
fn apply_capture_resets_clock() {
    let mut b = Board::new();
    b.make_move_mut(&CMove::new(Square::E2, Square::E4, cmove::PAWN_DPUSH));
    b.make_move_mut(&CMove::new(Square::D7, Square::D5, cmove::PAWN_DPUSH));
    b.make_move_mut(&CMove::new(Square::E4, Square::D5, cmove::CAPTURE));
    assert!(b.wf_check());
    assert_eq!(b.piece_on_square(Square::D5), Some(CPiece(Piece::Pawn, Color::White)));
    assert_eq!(b.piece_on_square(Square::E4), None);
    assert_eq!(b.halfmove_clock(), 0);
    assert_eq!(Bitboard(b.color_bb(Color::Black).0).count(), 15);
}

#[test]
fn apply_king_castle_moves_rook() {
    let mut list = Board::new().to_piece_list();
    // Clear f1 and g1 so white can castle king-side.
    list[5] = None;
    list[6] = None;
    let mut b = Board::from_piece_list(&list, Color::White, 15, None, 0).unwrap();
    b.make_move_mut(&CMove::new(Square::E1, Square::G1, cmove::KING_CASTLE));
    assert!(b.wf_check());
    assert_eq!(b.piece_on_square(Square::G1), Some(CPiece(Piece::King, Color::White)));
    assert_eq!(b.piece_on_square(Square::F1), Some(CPiece(Piece::Rook, Color::White)));
    assert_eq!(b.piece_on_square(Square::E1), None);
    assert_eq!(b.piece_on_square(Square::H1), None);
    assert_eq!(b.castling_rights() & 3, 0);
    assert_eq!(b.castling_rights() & 12, 12);
}

#[test]
fn apply_queen_castle_moves_rook() {
    let mut list = Board::new().to_piece_list();
    // Clear b1, c1 and d1 so white can castle queen-side.
    list[1] = None;
    list[2] = None;
    list[3] = None;
    let mut b = Board::from_piece_list(&list, Color::White, 15, None, 0).unwrap();
    b.make_move_mut(&CMove::new(Square::E1, Square::C1, cmove::QUEEN_CASTLE));
    assert!(b.wf_check());
    assert_eq!(b.piece_on_square(Square::C1), Some(CPiece(Piece::King, Color::White)));
    assert_eq!(b.piece_on_square(Square::D1), Some(CPiece(Piece::Rook, Color::White)));
    assert_eq!(b.piece_on_square(Square::A1), None);
}

#[test]
fn apply_promotion() {
    let mut list = empty_list();
    list[4] = Some(CPiece(Piece::King, Color::White));
    list[60] = Some(CPiece(Piece::King, Color::Black));
    list[48] = Some(CPiece(Piece::Pawn, Color::White));  // a7
    let mut b = Board::from_piece_list(&list, Color::White, 0, None, 0).unwrap();
    b.make_move_mut(&CMove::new(Square::A7, Square::A8, cmove::QUEEN_PROMO));
    assert!(b.wf_check());
    assert_eq!(b.piece_on_square(Square::A8), Some(CPiece(Piece::Queen, Color::White)));
    assert_eq!(b.piece_on_square(Square::A7), None);
    assert_eq!(b.piece_bb(None, Piece::Pawn).0, 0);
}

#[test]
fn apply_en_passant_removes_captured_pawn() {
    let mut b = Board::new();
    b.make_move_mut(&CMove::new(Square::E2, Square::E4, cmove::PAWN_DPUSH));
    b.make_move_mut(&CMove::new(Square::A7, Square::A6, cmove::QUIET));
    b.make_move_mut(&CMove::new(Square::E4, Square::E5, cmove::QUIET));
    b.make_move_mut(&CMove::new(Square::D7, Square::D5, cmove::PAWN_DPUSH));
    b.make_move_mut(&CMove::new(Square::E5, Square::D6, cmove::EP_CAPTURE));
    assert!(b.wf_check());
    assert_eq!(b.piece_on_square(Square::D6), Some(CPiece(Piece::Pawn, Color::White)));
    assert_eq!(b.piece_on_square(Square::D5), None);
    assert_eq!(b.piece_on_square(Square::E5), None);
    assert_eq!(Bitboard(b.color_bb(Color::Black).0).count(), 15);
}

#[test]
fn rook_move_clears_castling_right() {
    let mut list = Board::new().to_piece_list();
    list[6] = None;  // g1 knight away so the rook can move
    let mut b = Board::from_piece_list(&list, Color::White, 15, None, 0).unwrap();
    b.make_move_mut(&CMove::new(Square::H1, Square::G1, cmove::QUIET));
    assert!(b.wf_check());
    assert_eq!(b.castling_rights(), 14);
}
