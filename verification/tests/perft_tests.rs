//! Move-generation counting against the published reference values, from the
//! start position and the standard benchmark positions.

use chess_core::board::Board;
use chess_core::utils::{CPiece, Color, Piece, Square};

/// Builds a position from the placement, side, castling, en-passant and
/// clock fields of a position string in the usual notation. The en-passant
/// field names the skipped square; the board stores the pawn's own square.
fn board_from_fen(fen: &str) -> Board {
    let parts: Vec<&str> = fen.split_whitespace().collect();
    let mut list: Vec<Option<CPiece>> = Vec::new();
    for _ in 0..64 {
        list.push(None);
    }
    let mut rank: i32 = 7;
    let mut file: i32 = 0;
    for ch in parts[0].chars() {
        match ch {
            '/' => {
                rank -= 1;
                file = 0;
            },
            '1'..='8' => {
                file += ch as i32 - '0' as i32;
            },
            _ => {
                let color = if ch.is_ascii_uppercase() { Color::White } else { Color::Black };
                let piece = match ch.to_ascii_lowercase() {
                    'p' => Piece::Pawn,
                    'n' => Piece::Knight,
                    'b' => Piece::Bishop,
                    'r' => Piece::Rook,
                    'q' => Piece::Queen,
                    _ => Piece::King,
                };
                list[(rank * 8 + file) as usize] = Some(CPiece(piece, color));
                file += 1;
            },
        }
    }
    let side = if parts[1] == "w" { Color::White } else { Color::Black };
    let mut castling: u8 = 0;
    for ch in parts[2].chars() {
        match ch {
            'K' => castling |= 1,
            'Q' => castling |= 2,
            'k' => castling |= 4,
            'q' => castling |= 8,
            _ => {},
        }
    }
    let ep = if parts[3] == "-" {
        None
    } else {
        let bytes = parts[3].as_bytes();
        let f = bytes[0] - b'a';
        let r = bytes[1] - b'1';
        // The skipped square is one rank short of the pawn that pushed.
        let pawn_rank = if side == Color::White { r - 1 } else { r + 1 };
        Some(Square::from_index(pawn_rank * 8 + f))
    };
    let clock: u8 = if parts.len() > 4 { parts[4].parse().unwrap() } else { 0 };
    Board::from_piece_list(&list, side, castling, ep, clock).unwrap()
}

fn perft(b: &Board, depth: u32) -> u64 {
    if depth == 0 {
        return 1;
    }
    let moves = b.generate_moves();
    if depth == 1 {
        return moves.len() as u64;
    }
    let mut total: u64 = 0;
    for m in &moves {
        let mut child = *b;
        child.make_move_mut(m);
        total += perft(&child, depth - 1);
    }
    total
}

#[test]
fn perft_start_shallow() {
    let b = Board::new();
    assert_eq!(perft(&b, 1), 20);
    assert_eq!(perft(&b, 2), 400);
    assert_eq!(perft(&b, 3), 8_902);
}

#[test]
fn perft_kiwipete() {
    let b = board_from_fen("r3k2r/p1ppqpb1/bn2pnp1/3PN3/1p2P3/2N2Q1p/PPPBBPPP/R3K2R w KQkq - 0 1");
    assert_eq!(perft(&b, 1), 48);
    assert_eq!(perft(&b, 2), 2_039);
}

#[test]
fn perft_kiwipete_depth_three() {
    let b = board_from_fen("r3k2r/p1ppqpb1/bn2pnp1/3PN3/1p2P3/2N2Q1p/PPPBBPPP/R3K2R w KQkq - 0 1");
    assert_eq!(perft(&b, 3), 97_862);
}

#[test]
fn perft_position_three() {
    let b = board_from_fen("8/2p5/3p4/KP5r/1R3p1k/8/4P1P1/8 w - - 0 1");
    assert_eq!(perft(&b, 1), 14);
    assert_eq!(perft(&b, 2), 191);
    assert_eq!(perft(&b, 3), 2_812);
}

#[test]
fn perft_position_four() {
    let b = board_from_fen("r3k2r/Pppp1ppp/1b3nbN/nP6/BBP1P3/q4N2/Pp1P2PP/R2Q1RK1 w kq - 0 1");
    assert_eq!(perft(&b, 1), 6);
    assert_eq!(perft(&b, 2), 264);
    assert_eq!(perft(&b, 3), 9_467);
}

#[test]
fn perft_position_five() {
    let b = board_from_fen("rnbq1k1r/pp1Pbppp/2p5/8/2B5/8/PPP1NnPP/RNBQK2R w KQ - 1 8");
    assert_eq!(perft(&b, 1), 44);
    assert_eq!(perft(&b, 2), 1_486);
    assert_eq!(perft(&b, 3), 62_379);
}
