//! Bit-level behavior: shifts, scans, counting, and move packing.

use chess_core::bitboard::Bitboard;
use chess_core::cmove::CMove;
use chess_core::cmove;
use chess_core::utils::{Dir, Piece, Square};

#[test]
fn shift_one_steps() {
    let e4 = Bitboard(1u64 << 28);
    assert_eq!(Bitboard::nort_one(e4).0, 1u64 << 36);
    assert_eq!(Bitboard::sout_one(e4).0, 1u64 << 20);
    assert_eq!(Bitboard::east_one(e4).0, 1u64 << 29);
    assert_eq!(Bitboard::west_one(e4).0, 1u64 << 27);
    assert_eq!(Bitboard::noea_one(e4).0, 1u64 << 37);
    assert_eq!(Bitboard::nowe_one(e4).0, 1u64 << 35);
    assert_eq!(Bitboard::soea_one(e4).0, 1u64 << 21);
    assert_eq!(Bitboard::sowe_one(e4).0, 1u64 << 19);
}

#[test]
fn shifts_do_not_wrap_files() {
    let h4 = Bitboard(1u64 << 31);
    assert_eq!(Bitboard::east_one(h4).0, 0);
    assert_eq!(Bitboard::noea_one(h4).0, 0);
    assert_eq!(Bitboard::soea_one(h4).0, 0);
    let a4 = Bitboard(1u64 << 24);
    assert_eq!(Bitboard::west_one(a4).0, 0);
    assert_eq!(Bitboard::nowe_one(a4).0, 0);
    assert_eq!(Bitboard::sowe_one(a4).0, 0);
}

#[test]
fn rotations() {
    assert_eq!(Bitboard::rotate_left(Bitboard(1), 8).0, 1u64 << 8);
    assert_eq!(Bitboard::rotate_left(Bitboard(1u64 << 63), 1).0, 1);
    assert_eq!(Bitboard::rotate_right(Bitboard(1), 1).0, 1u64 << 63);
    assert_eq!(Bitboard::rotate_right(Bitboard(0xff), 64).0, 0xff);
}

#[test]
fn bit_scans() {
    assert!(Bitboard(0).bit_scan().is_none());
    assert!(Bitboard(0).bit_scan_reverse().is_none());
    let bb = Bitboard((1u64 << 3) | (1u64 << 41));
    assert_eq!(bb.bit_scan().unwrap().index(), 3);
    assert_eq!(bb.bit_scan_reverse().unwrap().index(), 41);
}

#[test]
fn popcount_and_emptiness() {
    assert_eq!(Bitboard(0).count(), 0);
    assert_eq!(Bitboard(u64::MAX).count(), 64);
    assert_eq!(Bitboard(0x0101_0101_0101_0101).count(), 8);
    assert!(Bitboard(0).empty());
    assert!(Bitboard(4).occupied());
}

#[test]
fn diagram_rendering() {
    // A lone piece on e4: rank 8 is printed first, e4 sits on the fifth
    // printed row, fifth cell.
    let s = Bitboard(1u64 << 28).to_string();
    let rows: Vec<&str> = s.lines().collect();
    assert_eq!(rows.len(), 8);
    assert_eq!(rows[0], ". . . . . . . . ");
    assert_eq!(rows[4], ". . . . 1 . . . ");
    assert_eq!(rows[7], ". . . . . . . . ");
}

#[test]
fn square_indexing() {
    assert_eq!(Square::A1.index(), 0);
    assert_eq!(Square::H1.index(), 7);
    assert_eq!(Square::A8.index(), 56);
    assert_eq!(Square::H8.index(), 63);
    assert_eq!(Square::from_index(28).index(), 28);
    assert_eq!(Square::E4.as_bitboard().0, 1u64 << 28);
}

#[test]
fn square_translate() {
    assert_eq!(Square::E4.translate(Dir::Nort, 1), Some(Square::E5));
    assert_eq!(Square::E4.translate(Dir::Sout, 2), Some(Square::E2));
    assert_eq!(Square::E4.translate(Dir::Noea, 1), Some(Square::F5));
    assert_eq!(Square::A1.translate(Dir::Sout, 1), None);
    assert_eq!(Square::H8.translate(Dir::Nort, 1), None);
    assert_eq!(Square::A1.translate(Dir::Nort, 7), Some(Square::A8));
    assert_eq!(Square::E4.translate(Dir::East, 1000), None);
    // The walk is over raw indices, so a long eastward walk wraps upward
    // through the ranks.
    assert_eq!(Square::A1.translate(Dir::East, 9), Some(Square::B2));
}

#[test]
fn direction_signs() {
    assert!(Dir::Nort.pos());
    assert!(Dir::Noea.pos());
    assert!(Dir::East.pos());
    assert!(Dir::Nowe.pos());
    assert!(Dir::Sout.neg());
    assert!(Dir::Sowe.neg());
    assert!(Dir::West.neg());
    assert!(Dir::Soea.neg());
}

#[test]
fn move_packing_round_trip() {
    let m = CMove::new(Square::E2, Square::E4, cmove::PAWN_DPUSH);
    assert_eq!(m.get_from(), Square::E2);
    assert_eq!(m.get_to(), Square::E4);
    assert_eq!(m.get_flags(), cmove::PAWN_DPUSH);
    let mut m2 = m;
    m2.set_from(Square::D2);
    m2.set_to(Square::D4);
    assert_eq!(m2.get_from(), Square::D2);
    assert_eq!(m2.get_to(), Square::D4);
    assert_eq!(m2.get_flags(), cmove::PAWN_DPUSH);
}

#[test]
fn move_predicates() {
    assert!(CMove::new(Square::E4, Square::D5, cmove::CAPTURE).is_capture());
    assert!(CMove::new(Square::E5, Square::D6, cmove::EP_CAPTURE).is_capture());
    assert!(CMove::new(Square::E5, Square::D6, cmove::EP_CAPTURE).is_ep_capture());
    assert!(CMove::new(Square::A7, Square::B8, cmove::QUEEN_PROMO_CAPTURE).is_capture());
    assert!(!CMove::new(Square::E2, Square::E3, cmove::QUIET).is_capture());
    assert!(!CMove::new(Square::A7, Square::A8, cmove::ROOK_PROMO).is_capture());
    assert!(CMove::new(Square::E2, Square::E4, cmove::PAWN_DPUSH).is_pawn_dpush());
    assert!(CMove::new(Square::E1, Square::G1, cmove::KING_CASTLE).is_king_castle());
    assert!(CMove::new(Square::E1, Square::C1, cmove::QUEEN_CASTLE).is_queen_castle());
    assert_eq!(CMove::new(Square::A7, Square::A8, cmove::KNIGHT_PROMO).is_promo(), Some(Piece::Knight));
    assert_eq!(CMove::new(Square::A7, Square::A8, cmove::BISHOP_PROMO).is_promo(), Some(Piece::Bishop));
    assert_eq!(CMove::new(Square::A7, Square::A8, cmove::ROOK_PROMO_CAPTURE).is_promo(), Some(Piece::Rook));
    assert_eq!(CMove::new(Square::A7, Square::A8, cmove::QUEEN_PROMO).is_promo(), Some(Piece::Queen));
    assert_eq!(CMove::new(Square::E2, Square::E4, cmove::QUIET).is_promo(), None);
}
