//! Move-generation scenarios: the start position, en passant, pins, double
//! check, castling under attack and the fifty-move rule.

use chess_core::board::Board;
use chess_core::cmove::CMove;
use chess_core::cmove;
use chess_core::utils::{CPiece, Color, Piece, Square};

fn empty_list() -> Vec<Option<CPiece>> {
    let mut v = Vec::new();
    for _ in 0..64 {
        v.push(None);
    }
    v
}

fn sq(name: &str) -> u8 {
    let bytes = name.as_bytes();
    let file = bytes[0] - b'a';
    let rank = bytes[1] - b'1';
    rank * 8 + file
}

fn has_move(moves: &Vec<CMove>, from: &str, to: &str, flags: u16) -> bool {
    moves.iter().any(|m| {
        m.get_from().index() == sq(from) && m.get_to().index() == sq(to) && m.get_flags() == flags
    })
}

fn any_from(moves: &Vec<CMove>, from: &str) -> bool {
    moves.iter().any(|m| m.get_from().index() == sq(from))
}

#[test]
fn start_position_has_twenty_moves() {
    let b = Board::new();
    let moves = b.generate_moves();
    assert_eq!(moves.len(), 20);
    // Every single and double pawn push.
    for file in ["a", "b", "c", "d", "e", "f", "g", "h"] {
        let from = format!("{}2", file);
        let single = format!("{}3", file);
        let double = format!("{}4", file);
        assert!(has_move(&moves, &from, &single, cmove::QUIET));
        assert!(has_move(&moves, &from, &double, cmove::PAWN_DPUSH));
    }
    // The four knight moves.
    assert!(has_move(&moves, "b1", "a3", cmove::QUIET));
    assert!(has_move(&moves, "b1", "c3", cmove::QUIET));
    assert!(has_move(&moves, "g1", "f3", cmove::QUIET));
    assert!(has_move(&moves, "g1", "h3", cmove::QUIET));
}

#[test]
fn en_passant_window_opens_and_closes() {
    let mut b = Board::new();
    b.make_move_mut(&CMove::new(Square::E2, Square::E4, cmove::PAWN_DPUSH));
    b.make_move_mut(&CMove::new(Square::A7, Square::A6, cmove::QUIET));
    b.make_move_mut(&CMove::new(Square::E4, Square::E5, cmove::QUIET));
    b.make_move_mut(&CMove::new(Square::D7, Square::D5, cmove::PAWN_DPUSH));
    // The black pawn that just double-pushed stands on d5.
    assert_eq!(b.ep_square(), Some(Square::D5));
    assert_eq!(b.piece_on_square(Square::D5), Some(CPiece(Piece::Pawn, Color::Black)));
    let moves = b.generate_moves();
    assert!(has_move(&moves, "e5", "d6", cmove::EP_CAPTURE));
    // After any other white move the window is gone.
    let mut b2 = b;
    b2.make_move_mut(&CMove::new(Square::A2, Square::A3, cmove::QUIET));
    assert!(b2.ep_square().is_none());
    let replies = b2.generate_moves();
    assert!(!replies.iter().any(|m| m.get_flags() == cmove::EP_CAPTURE));
}

#[test]
fn pinned_knight_cannot_move() {
    let mut list = empty_list();
    list[sq("e1") as usize] = Some(CPiece(Piece::King, Color::White));
    list[sq("e2") as usize] = Some(CPiece(Piece::Knight, Color::White));
    list[sq("e8") as usize] = Some(CPiece(Piece::Rook, Color::Black));
    list[sq("a8") as usize] = Some(CPiece(Piece::King, Color::Black));
    let b = Board::from_piece_list(&list, Color::White, 0, None, 0).unwrap();
    let moves = b.generate_moves();
    // The knight is pinned: nothing moves from e2.
    assert!(!any_from(&moves, "e2"));
    // The king may step to the four safe squares.
    assert!(has_move(&moves, "e1", "d1", cmove::QUIET));
    assert!(has_move(&moves, "e1", "d2", cmove::QUIET));
    assert!(has_move(&moves, "e1", "f1", cmove::QUIET));
    assert!(has_move(&moves, "e1", "f2", cmove::QUIET));
    assert_eq!(moves.len(), 4);
}

#[test]
fn double_check_forces_king_moves() {
    let mut list = empty_list();
    list[sq("e1") as usize] = Some(CPiece(Piece::King, Color::White));
    list[sq("h4") as usize] = Some(CPiece(Piece::Bishop, Color::Black));
    list[sq("d3") as usize] = Some(CPiece(Piece::Knight, Color::Black));
    list[sq("a8") as usize] = Some(CPiece(Piece::King, Color::Black));
    let b = Board::from_piece_list(&list, Color::White, 0, None, 0).unwrap();
    let moves = b.generate_moves();
    assert!(moves.len() > 0);
    for m in &moves {
        assert_eq!(m.get_from().index(), sq("e1"));
    }
}

#[test]
fn castling_blocked_by_attack_on_f1() {
    let mut list = Board::new().to_piece_list();
    // Open the king-side and the f-file, and aim a black rook at f1.
    list[sq("f1") as usize] = None;
    list[sq("g1") as usize] = None;
    list[sq("f2") as usize] = None;
    list[sq("f7") as usize] = None;
    list[sq("f8") as usize] = Some(CPiece(Piece::Rook, Color::Black));
    let b = Board::from_piece_list(&list, Color::White, 15, None, 0).unwrap();
    let moves = b.generate_moves();
    assert!(!has_move(&moves, "e1", "g1", cmove::KING_CASTLE));
    // With a bishop on f8 instead, nothing attacks f1 and the castle stands.
    let mut list2 = list.clone();
    list2[sq("f8") as usize] = Some(CPiece(Piece::Bishop, Color::Black));
    let b2 = Board::from_piece_list(&list2, Color::White, 15, None, 0).unwrap();
    let moves2 = b2.generate_moves();
    assert!(has_move(&moves2, "e1", "g1", cmove::KING_CASTLE));
}

#[test]
fn fifty_move_rule_empties_the_list() {
    let list = Board::new().to_piece_list();
    let b = Board::from_piece_list(&list, Color::White, 15, None, 100).unwrap();
    assert_eq!(b.generate_moves().len(), 0);
}

#[test]
fn en_passant_kept_off_a_discovered_rank_attack() {
    // A rook on the fifth rank sees the white king once both pawns leave it.
    let mut list = empty_list();
    list[sq("h5") as usize] = Some(CPiece(Piece::King, Color::White));
    list[sq("g5") as usize] = Some(CPiece(Piece::Pawn, Color::White));
    list[sq("f5") as usize] = Some(CPiece(Piece::Pawn, Color::Black));
    list[sq("a5") as usize] = Some(CPiece(Piece::Rook, Color::Black));
    list[sq("a8") as usize] = Some(CPiece(Piece::King, Color::Black));
    let b = Board::from_piece_list(&list, Color::White, 0, Some(Square::F5), 0).unwrap();
    let moves = b.generate_moves();
    assert!(!has_move(&moves, "g5", "f6", cmove::EP_CAPTURE));
    // Without the rook the capture is legal.
    let mut list2 = list.clone();
    list2[sq("a5") as usize] = None;
    let b2 = Board::from_piece_list(&list2, Color::White, 0, Some(Square::F5), 0).unwrap();
    let moves2 = b2.generate_moves();
    assert!(has_move(&moves2, "g5", "f6", cmove::EP_CAPTURE));
}

#[test]
fn check_can_be_blocked_or_escaped() {
    // A black rook checks along the e-file; white may interpose the rook on
    // e5 or step the king aside, and nothing else.
    let mut list = empty_list();
    list[sq("e1") as usize] = Some(CPiece(Piece::King, Color::White));
    list[sq("e8") as usize] = Some(CPiece(Piece::Rook, Color::Black));
    list[sq("a4") as usize] = Some(CPiece(Piece::Bishop, Color::White));
    list[sq("b5") as usize] = Some(CPiece(Piece::Rook, Color::White));
    list[sq("a8") as usize] = Some(CPiece(Piece::King, Color::Black));
    let b = Board::from_piece_list(&list, Color::White, 0, None, 0).unwrap();
    let moves = b.generate_moves();
    assert!(has_move(&moves, "b5", "e5", cmove::QUIET));
    assert!(has_move(&moves, "e1", "d1", cmove::QUIET));
    assert!(has_move(&moves, "e1", "d2", cmove::QUIET));
    assert!(has_move(&moves, "e1", "f1", cmove::QUIET));
    assert!(has_move(&moves, "e1", "f2", cmove::QUIET));
    // The bishop is shut in by its own rook and cannot help.
    assert!(!any_from(&moves, "a4"));
    assert_eq!(moves.len(), 5);
}

#[test]
fn checking_pawn_falls_en_passant() {
    // A black pawn double-pushes to g5 and checks the king on h4: the white
    // pawn on h5 may take it en passant.
    let mut list = empty_list();
    list[sq("h4") as usize] = Some(CPiece(Piece::King, Color::White));
    list[sq("h5") as usize] = Some(CPiece(Piece::Pawn, Color::White));
    list[sq("g5") as usize] = Some(CPiece(Piece::Pawn, Color::Black));
    list[sq("a8") as usize] = Some(CPiece(Piece::King, Color::Black));
    let b = Board::from_piece_list(&list, Color::White, 0, Some(Square::G5), 0).unwrap();
    let moves = b.generate_moves();
    assert!(has_move(&moves, "h5", "g6", cmove::EP_CAPTURE));
}
