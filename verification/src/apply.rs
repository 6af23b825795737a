//! Applying a move to a position: the validity predicate a move must meet,
//! the functional description of the update, and the mutating applier.

use vstd::prelude::*;
use crate::bits::bit64;
use crate::bitboard::{RANK2, RANK7, RANK_1_AND_8, east_one_spec, west_one_spec};
use crate::board::{
    Board, A1_BB, B1_BB, C1_BB, D1_BB, E1_BB, F1_BB, G1_BB, H1_BB, A8_BB, B8_BB, C8_BB, D8_BB,
    E8_BB, F8_BB, G8_BB, H8_BB, WKING_SIDE_MASK, WQUEEN_SIDE_MASK, BKING_SIDE_MASK,
    BQUEEN_SIDE_MASK,
};
use crate::attacks::{
    bishop_attacks_spec, king_attacks_spec, knight_attacks_spec, pawn_attacks_spec,
    queen_attacks_spec, rook_attacks_spec,
};
use crate::cmove::{CMove, QUIET, PAWN_DPUSH, KING_CASTLE, QUEEN_CASTLE, CAPTURE, EP_CAPTURE};
use crate::utils::{Color, Piece};

verus! {

/// The kind of the piece on square `i`, read off the kind boards in order;
/// `King` when the square is empty.
pub open spec fn kind_at(b: Board, i: u64) -> Piece {
    if bit64(b.pawn_bb, i) {
        Piece::Pawn
    } else if bit64(b.knight_bb, i) {
        Piece::Knight
    } else if bit64(b.bishop_bb, i) {
        Piece::Bishop
    } else if bit64(b.rook_bb, i) {
        Piece::Rook
    } else if bit64(b.queen_bb, i) {
        Piece::Queen
    } else {
        Piece::King
    }
}

/// The board with the kind board of `p` replaced by `v`.
pub open spec fn with_kind(b: Board, p: Piece, v: u64) -> Board {
    match p {
        Piece::Pawn => Board { pawn_bb: v, ..b },
        Piece::Knight => Board { knight_bb: v, ..b },
        Piece::Bishop => Board { bishop_bb: v, ..b },
        Piece::Rook => Board { rook_bb: v, ..b },
        Piece::Queen => Board { queen_bb: v, ..b },
        Piece::King => Board { king_bb: v, ..b },
    }
}

/// The castling rights a move touching square `i` leaves in place.
pub open spec fn castle_keep(i: u64) -> u8 {
    if i == 4 {
        12
    } else if i == 0 {
        13
    } else if i == 7 {
        14
    } else if i == 60 {
        3
    } else if i == 56 {
        7
    } else if i == 63 {
        11
    } else {
        15
    }
}

/// The piece a promotion flag names in its two low bits.
pub open spec fn promo_target(fl: u16) -> Piece {
    match fl % 4 {
        0u16 => Piece::Knight,
        1u16 => Piece::Bishop,
        2u16 => Piece::Rook,
        _ => Piece::Queen,
    }
}

/// True iff square mask `t` is a square the mover of kind `p` on `fi`
/// attacks under the board's occupancy.
pub open spec fn reach_ok(b: Board, p: Piece, fi: u64, t: u64) -> bool {
    match p {
        Piece::Pawn => false,
        Piece::Knight => t & knight_attacks_spec(1u64 << fi) != 0,
        Piece::Bishop => t & bishop_attacks_spec(fi, b.occupied_bb) != 0,
        Piece::Rook => t & rook_attacks_spec(fi, b.occupied_bb) != 0,
        Piece::Queen => t & queen_attacks_spec(fi, b.occupied_bb) != 0,
        Piece::King => t & king_attacks_spec(1u64 << fi) != 0,
    }
}

/// What the applier relies on of a move: the mover is a piece of the side to
/// move, the destination suits the flag, pawns keep off the back ranks
/// outside promotions, and the game is not already drawn by the fifty-move
/// rule. Every move the generator returns satisfies it.
pub open spec fn move_ok(b: Board, m: CMove) -> bool {
    let s = b.side_to_move;
    let fi = m.from_sq();
    let ti = m.to_sq();
    let f = 1u64 << fi;
    let t = 1u64 << ti;
    let own = b.color_of(s);
    let enemy = b.color_of(s.opp());
    let fl = m.flags_of();
    let white = s == Color::White;
    &&& b.halfmove_clock < 100
    &&& f & own != 0
    &&& if fl == QUIET {
        t & b.occupied_bb == 0 && (if f & b.pawn_bb != 0 {
            (if white {
                t == f << 8
            } else {
                t == f >> 8
            }) && t & RANK_1_AND_8 == 0
        } else {
            reach_ok(b, kind_at(b, fi), fi, t)
        })
    } else if fl == PAWN_DPUSH {
        &&& f & b.pawn_bb != 0
        &&& t & b.occupied_bb == 0
        &&& if white {
            f & RANK2 != 0 && t == (f << 8) << 8 && (f << 8) & b.occupied_bb == 0
        } else {
            f & RANK7 != 0 && t == (f >> 8) >> 8 && (f >> 8) & b.occupied_bb == 0
        }
    } else if fl == KING_CASTLE {
        if white {
            b.castling_rights & WKING_SIDE_MASK != 0 && f == E1_BB && t == G1_BB
                && b.occupied_bb & (F1_BB | G1_BB) == 0
        } else {
            b.castling_rights & BKING_SIDE_MASK != 0 && f == E8_BB && t == G8_BB
                && b.occupied_bb & (F8_BB | G8_BB) == 0
        }
    } else if fl == QUEEN_CASTLE {
        if white {
            b.castling_rights & WQUEEN_SIDE_MASK != 0 && f == E1_BB && t == C1_BB
                && b.occupied_bb & (B1_BB | C1_BB | D1_BB) == 0
        } else {
            b.castling_rights & BQUEEN_SIDE_MASK != 0 && f == E8_BB && t == C8_BB
                && b.occupied_bb & (B8_BB | C8_BB | D8_BB) == 0
        }
    } else if fl == CAPTURE {
        &&& t & enemy != 0
        &&& t & b.king_bb == 0
        &&& if f & b.pawn_bb != 0 {
            t & pawn_attacks_spec(s, f) != 0 && t & RANK_1_AND_8 == 0
        } else {
            reach_ok(b, kind_at(b, fi), fi, t)
        }
    } else if fl == EP_CAPTURE {
        &&& f & b.pawn_bb != 0
        &&& b.en_passant_bb != 0
        &&& if white {
            t == b.en_passant_bb << 8
        } else {
            t == b.en_passant_bb >> 8
        }
        &&& f & (east_one_spec(b.en_passant_bb) | west_one_spec(b.en_passant_bb)) != 0
        &&& t & b.occupied_bb == 0
    } else if 8 <= fl && fl < 12 {
        &&& f & b.pawn_bb != 0
        &&& t & b.occupied_bb == 0
        &&& if white {
            f & RANK7 != 0 && t == f << 8
        } else {
            f & RANK2 != 0 && t == f >> 8
        }
    } else if 12 <= fl {
        &&& f & b.pawn_bb != 0
        &&& t & enemy != 0
        &&& t & b.king_bb == 0
        &&& t & pawn_attacks_spec(s, f) != 0
        &&& if white {
            f & RANK7 != 0
        } else {
            f & RANK2 != 0
        }
    } else {
        false
    }
}

/// The position after playing `m` on `b`, field by field, as the applier
/// computes it.
pub open spec fn apply_spec(b: Board, m: CMove) -> Board {
    let s = b.side_to_move;
    let fi = m.from_sq();
    let ti = m.to_sq();
    let f = 1u64 << fi;
    let t = 1u64 << ti;
    let ft = f | t;
    let fl = m.flags_of();
    let white = s == Color::White;
    let rights = b.castling_rights & castle_keep(fi) & castle_keep(ti);
    let stm = s.opp();
    if fl == KING_CASTLE || fl == QUEEN_CASTLE {
        let rft: u64 = if white {
            if fl == KING_CASTLE {
                H1_BB | F1_BB
            } else {
                A1_BB | D1_BB
            }
        } else {
            if fl == KING_CASTLE {
                H8_BB | F8_BB
            } else {
                A8_BB | D8_BB
            }
        };
        Board {
            king_bb: b.king_bb ^ ft,
            rook_bb: b.rook_bb ^ rft,
            white_bb: if white {
                b.white_bb ^ ft ^ rft
            } else {
                b.white_bb
            },
            black_bb: if white {
                b.black_bb
            } else {
                b.black_bb ^ ft ^ rft
            },
            occupied_bb: b.occupied_bb ^ ft ^ rft,
            empty_bb: !(b.occupied_bb ^ ft ^ rft),
            en_passant_bb: 0,
            halfmove_clock: (b.halfmove_clock + 1) as u8,
            castling_rights: rights,
            side_to_move: stm,
            ..b
        }
    } else if fl == EP_CAPTURE {
        let cap = b.en_passant_bb;
        Board {
            pawn_bb: (b.pawn_bb ^ ft) & !cap,
            white_bb: if white {
                b.white_bb ^ ft
            } else {
                b.white_bb & !cap
            },
            black_bb: if white {
                b.black_bb & !cap
            } else {
                b.black_bb ^ ft
            },
            occupied_bb: (b.occupied_bb ^ ft) & !cap,
            empty_bb: !((b.occupied_bb ^ ft) & !cap),
            en_passant_bb: 0,
            halfmove_clock: 0,
            castling_rights: rights,
            side_to_move: stm,
            ..b
        }
    } else if fl == CAPTURE || 12 <= fl {
        let v = kind_at(b, ti);
        let b1 = with_kind(b, v, b.kind_bb(v) & !t);
        let b2 = if 12 <= fl {
            let promo = promo_target(fl);
            let b1p = with_kind(b1, Piece::Pawn, b1.pawn_bb & !f);
            with_kind(b1p, promo, b1p.kind_bb(promo) | t)
        } else {
            let p = kind_at(b, fi);
            with_kind(b1, p, b1.kind_bb(p) ^ ft)
        };
        Board {
            white_bb: if white {
                b.white_bb ^ ft
            } else {
                b.white_bb & !t
            },
            black_bb: if white {
                b.black_bb & !t
            } else {
                b.black_bb ^ ft
            },
            occupied_bb: b.occupied_bb ^ f,
            empty_bb: !(b.occupied_bb ^ f),
            en_passant_bb: 0,
            halfmove_clock: 0,
            castling_rights: rights,
            side_to_move: stm,
            ..b2
        }
    } else if 8 <= fl && fl < 12 {
        let promo = promo_target(fl);
        let b1 = with_kind(b, Piece::Pawn, b.pawn_bb & !f);
        let b2 = with_kind(b1, promo, b1.kind_bb(promo) | t);
        Board {
            white_bb: if white {
                b.white_bb ^ ft
            } else {
                b.white_bb
            },
            black_bb: if white {
                b.black_bb
            } else {
                b.black_bb ^ ft
            },
            occupied_bb: b.occupied_bb ^ ft,
            empty_bb: !(b.occupied_bb ^ ft),
            en_passant_bb: 0,
            halfmove_clock: 0,
            castling_rights: rights,
            side_to_move: stm,
            ..b2
        }
    } else {
        let p = kind_at(b, fi);
        let b2 = with_kind(b, p, b.kind_bb(p) ^ ft);
        Board {
            white_bb: if white {
                b.white_bb ^ ft
            } else {
                b.white_bb
            },
            black_bb: if white {
                b.black_bb
            } else {
                b.black_bb ^ ft
            },
            occupied_bb: b.occupied_bb ^ ft,
            empty_bb: !(b.occupied_bb ^ ft),
            en_passant_bb: if fl == PAWN_DPUSH {
                t
            } else {
                0
            },
            halfmove_clock: if p == Piece::Pawn {
                0
            } else {
                (b.halfmove_clock + 1) as u8
            },
            castling_rights: rights,
            side_to_move: stm,
            ..b2
        }
    }
}

/// The covering part of the invariant: the color boards partition the
/// occupied squares and the kind boards cover them, each side has one king,
/// and no pawn stands on a back rank.
pub open spec fn wf_flat_cover(
    pw: u64,
    kn: u64,
    bi: u64,
    ro: u64,
    qu: u64,
    ki: u64,
    wt: u64,
    bk: u64,
    occ: u64,
    em: u64,
) -> bool {
    &&& wt & bk == 0
    &&& occ == wt | bk
    &&& em == !occ
    &&& (pw | kn | bi | ro | qu | ki) == occ
    &&& crate::bits::one_bit(ki & wt)
    &&& crate::bits::one_bit(ki & bk)
    &&& pw & RANK_1_AND_8 == 0
}

/// The separation part of the invariant: no square holds two kinds of piece.
pub open spec fn wf_flat_kinds(pw: u64, kn: u64, bi: u64, ro: u64, qu: u64, ki: u64) -> bool {
    &&& pw & kn == 0
    &&& pw & bi == 0
    &&& pw & ro == 0
    &&& pw & qu == 0
    &&& pw & ki == 0
    &&& kn & bi == 0
    &&& kn & ro == 0
    &&& kn & qu == 0
    &&& kn & ki == 0
    &&& bi & ro == 0
    &&& bi & qu == 0
    &&& bi & ki == 0
    &&& ro & qu == 0
    &&& ro & ki == 0
    &&& qu & ki == 0
}

/// The placement half of the invariant.
pub open spec fn wf_flat_boards(
    pw: u64,
    kn: u64,
    bi: u64,
    ro: u64,
    qu: u64,
    ki: u64,
    wt: u64,
    bk: u64,
    occ: u64,
    em: u64,
) -> bool {
    wf_flat_cover(pw, kn, bi, ro, qu, ki, wt, bk, occ, em) && wf_flat_kinds(pw, kn, bi, ro, qu, ki)
}

/// The scalar half of the invariant: the en-passant board's shape, the
/// castling rights against the home squares, and the halfmove clock's bound.
pub open spec fn wf_flat_scalars(
    pw: u64,
    ro: u64,
    ki: u64,
    wt: u64,
    bk: u64,
    ep: u64,
    clock: u8,
    cr: u8,
    white_stm: bool,
) -> bool {
    &&& (ep == 0 || {
        &&& crate::bits::one_bit(ep)
        &&& ep & pw == ep
        &&& white_stm ==> (ep & crate::bitboard::RANK5 == ep && ep & bk == ep)
        &&& !white_stm ==> (ep & crate::bitboard::RANK4 == ep && ep & wt == ep)
    })
    &&& cr < 16
    &&& (cr & WKING_SIDE_MASK != 0 ==> (ki & wt == E1_BB && ro & wt & H1_BB != 0))
    &&& (cr & WQUEEN_SIDE_MASK != 0 ==> (ki & wt == E1_BB && ro & wt & A1_BB != 0))
    &&& (cr & BKING_SIDE_MASK != 0 ==> (ki & bk == E8_BB && ro & bk & H8_BB != 0))
    &&& (cr & BQUEEN_SIDE_MASK != 0 ==> (ki & bk == E8_BB && ro & bk & A8_BB != 0))
    &&& clock <= 100
}

/// The position invariant written over the bare fields, so that bit-vector
/// proofs can inline it.
pub open spec fn wf_flat(
    pw: u64,
    kn: u64,
    bi: u64,
    ro: u64,
    qu: u64,
    ki: u64,
    wt: u64,
    bk: u64,
    occ: u64,
    em: u64,
    ep: u64,
    clock: u8,
    cr: u8,
    white_stm: bool,
) -> bool {
    wf_flat_boards(pw, kn, bi, ro, qu, ki, wt, bk, occ, em) && wf_flat_scalars(
        pw,
        ro,
        ki,
        wt,
        bk,
        ep,
        clock,
        cr,
        white_stm,
    )
}

/// The invariant on a board is the invariant on its fields.
pub proof fn lemma_wf_flat(b: Board)
    ensures
        b.wf() <==> wf_flat(
            b.pawn_bb,
            b.knight_bb,
            b.bishop_bb,
            b.rook_bb,
            b.queen_bb,
            b.king_bb,
            b.white_bb,
            b.black_bb,
            b.occupied_bb,
            b.empty_bb,
            b.en_passant_bb,
            b.halfmove_clock,
            b.castling_rights,
            b.side_to_move == Color::White,
        ),
{
}

/// A piece of the side on square `f` stands on one of the six kind boards.
proof fn bv_kind_cover(
    pw: u64,
    kn: u64,
    bi: u64,
    ro: u64,
    qu: u64,
    ki: u64,
    wt: u64,
    bk: u64,
    occ: u64,
    f: u64,
)
    by (bit_vector)
    requires
        occ == wt | bk,
        (pw | kn | bi | ro | qu | ki) == occ,
        wt & f != 0 || bk & f != 0,
    ensures
        pw & f != 0 || kn & f != 0 || bi & f != 0 || ro & f != 0 || qu & f != 0 || ki & f != 0,
{
}

/// A quiet move or a double push preserves the invariant.
#[verifier::rlimit(80)]
proof fn bv_wf_quiet(
    pw: u64,
    kn: u64,
    bi: u64,
    ro: u64,
    qu: u64,
    ki: u64,
    wt: u64,
    bk: u64,
    occ: u64,
    em: u64,
    ep: u64,
    clock: u8,
    cr: u8,
    white: bool,
    f: u64,
    t: u64,
    fi: u64,
    ti: u64,
    m_pw: bool,
    m_kn: bool,
    m_bi: bool,
    m_ro: bool,
    m_qu: bool,
    m_ki: bool,
    dpush: bool,
)
    by (bit_vector)
    requires
        wf_flat(pw, kn, bi, ro, qu, ki, wt, bk, occ, em, ep, clock, cr, white),
        clock < 100,
        f == 1u64 << fi,
        t == 1u64 << ti,
        fi < 64,
        ti < 64,
        (if white {
            wt
        } else {
            bk
        }) & f != 0,
        occ & t == 0,
        m_pw ==> pw & f != 0,
        m_kn ==> kn & f != 0,
        m_bi ==> bi & f != 0,
        m_ro ==> ro & f != 0,
        m_qu ==> qu & f != 0,
        m_ki ==> ki & f != 0,
        m_pw || m_kn || m_bi || m_ro || m_qu || m_ki,
        m_pw && !dpush ==> t & RANK_1_AND_8 == 0,
        dpush ==> m_pw,
        dpush ==> (if white {
            f & RANK2 != 0 && t == (f << 8) << 8
        } else {
            f & RANK7 != 0 && t == (f >> 8) >> 8
        }),
    ensures
        wf_flat(
            if m_pw {
                pw ^ (f | t)
            } else {
                pw
            },
            if m_kn {
                kn ^ (f | t)
            } else {
                kn
            },
            if m_bi {
                bi ^ (f | t)
            } else {
                bi
            },
            if m_ro {
                ro ^ (f | t)
            } else {
                ro
            },
            if m_qu {
                qu ^ (f | t)
            } else {
                qu
            },
            if m_ki {
                ki ^ (f | t)
            } else {
                ki
            },
            if white {
                wt ^ (f | t)
            } else {
                wt
            },
            if white {
                bk
            } else {
                bk ^ (f | t)
            },
            occ ^ (f | t),
            !(occ ^ (f | t)),
            if dpush {
                t
            } else {
                0
            },
            if m_pw {
                0
            } else {
                (clock + 1) as u8
            },
            cr & castle_keep(fi) & castle_keep(ti),
            !white,
        ),
{
}

/// A plain capture keeps the color partition of the occupancy and the pawn
/// rank rule.
#[verifier::rlimit(100)]
#[verifier::spinoff_prover]
proof fn bv_wf_capture_colors(
    pw: u64,
    kn: u64,
    bi: u64,
    ro: u64,
    qu: u64,
    ki: u64,
    wt: u64,
    bk: u64,
    occ: u64,
    em: u64,
    ep: u64,
    clock: u8,
    cr: u8,
    white: bool,
    f: u64,
    t: u64,
    fi: u64,
    ti: u64,
    m_pw: bool,
    m_kn: bool,
    m_bi: bool,
    m_ro: bool,
    m_qu: bool,
    m_ki: bool,
    v_pw: bool,
    v_kn: bool,
    v_bi: bool,
    v_ro: bool,
    v_qu: bool,
)
    by (bit_vector)
    requires
        wf_flat_boards(pw, kn, bi, ro, qu, ki, wt, bk, occ, em),
        clock < 100,
        f == 1u64 << fi,
        t == 1u64 << ti,
        fi < 64,
        ti < 64,
        (if white {
            wt
        } else {
            bk
        }) & f != 0,
        (if white {
            bk
        } else {
            wt
        }) & t != 0,
        ki & t == 0,
        m_pw ==> pw & f != 0,
        m_kn ==> kn & f != 0,
        m_bi ==> bi & f != 0,
        m_ro ==> ro & f != 0,
        m_qu ==> qu & f != 0,
        m_ki ==> ki & f != 0,
        m_pw || m_kn || m_bi || m_ro || m_qu || m_ki,
        v_pw ==> pw & t != 0,
        v_kn ==> kn & t != 0,
        v_bi ==> bi & t != 0,
        v_ro ==> ro & t != 0,
        v_qu ==> qu & t != 0,
        v_pw || v_kn || v_bi || v_ro || v_qu,
        m_pw ==> t & RANK_1_AND_8 == 0,
    ensures
        (if white { wt ^ (f | t) } else { wt & !t }) & (if white { bk & !t } else { bk ^ (f | t) }) == 0,
        (occ ^ f) == (if white { wt ^ (f | t) } else { wt & !t }) | (if white { bk & !t } else { bk ^ (f | t) }),
        ({
            let base = if v_pw { pw & !t } else { pw };
            if m_pw { base ^ (f | t) } else { base }
        }) & RANK_1_AND_8 == 0,
{
}

/// A plain capture keeps the kind boards covering the occupancy.
#[verifier::rlimit(100)]
#[verifier::spinoff_prover]
proof fn bv_wf_capture_union(
    pw: u64,
    kn: u64,
    bi: u64,
    ro: u64,
    qu: u64,
    ki: u64,
    wt: u64,
    bk: u64,
    occ: u64,
    em: u64,
    ep: u64,
    clock: u8,
    cr: u8,
    white: bool,
    f: u64,
    t: u64,
    fi: u64,
    ti: u64,
    m_pw: bool,
    m_kn: bool,
    m_bi: bool,
    m_ro: bool,
    m_qu: bool,
    m_ki: bool,
    v_pw: bool,
    v_kn: bool,
    v_bi: bool,
    v_ro: bool,
    v_qu: bool,
)
    by (bit_vector)
    requires
        wf_flat_boards(pw, kn, bi, ro, qu, ki, wt, bk, occ, em),
        clock < 100,
        f == 1u64 << fi,
        t == 1u64 << ti,
        fi < 64,
        ti < 64,
        (if white {
            wt
        } else {
            bk
        }) & f != 0,
        (if white {
            bk
        } else {
            wt
        }) & t != 0,
        ki & t == 0,
        m_pw ==> pw & f != 0,
        m_kn ==> kn & f != 0,
        m_bi ==> bi & f != 0,
        m_ro ==> ro & f != 0,
        m_qu ==> qu & f != 0,
        m_ki ==> ki & f != 0,
        m_pw || m_kn || m_bi || m_ro || m_qu || m_ki,
        v_pw ==> pw & t != 0,
        v_kn ==> kn & t != 0,
        v_bi ==> bi & t != 0,
        v_ro ==> ro & t != 0,
        v_qu ==> qu & t != 0,
        v_pw || v_kn || v_bi || v_ro || v_qu,
        m_pw ==> t & RANK_1_AND_8 == 0,
    ensures
        (({
            let base = if v_pw { pw & !t } else { pw };
            if m_pw { base ^ (f | t) } else { base }
        }) | ({
            let base = if v_kn { kn & !t } else { kn };
            if m_kn { base ^ (f | t) } else { base }
        }) | ({
            let base = if v_bi { bi & !t } else { bi };
            if m_bi { base ^ (f | t) } else { base }
        }) | ({
            let base = if v_ro { ro & !t } else { ro };
            if m_ro { base ^ (f | t) } else { base }
        }) | ({
            let base = if v_qu { qu & !t } else { qu };
            if m_qu { base ^ (f | t) } else { base }
        }) | (if m_ki { ki ^ (f | t) } else { ki }))
            == (occ ^ f),
{
}

/// A plain capture leaves one king of each color.
#[verifier::rlimit(100)]
#[verifier::spinoff_prover]
proof fn bv_wf_capture_kings(
    pw: u64,
    kn: u64,
    bi: u64,
    ro: u64,
    qu: u64,
    ki: u64,
    wt: u64,
    bk: u64,
    occ: u64,
    em: u64,
    ep: u64,
    clock: u8,
    cr: u8,
    white: bool,
    f: u64,
    t: u64,
    fi: u64,
    ti: u64,
    m_pw: bool,
    m_kn: bool,
    m_bi: bool,
    m_ro: bool,
    m_qu: bool,
    m_ki: bool,
    v_pw: bool,
    v_kn: bool,
    v_bi: bool,
    v_ro: bool,
    v_qu: bool,
)
    by (bit_vector)
    requires
        wf_flat_boards(pw, kn, bi, ro, qu, ki, wt, bk, occ, em),
        clock < 100,
        f == 1u64 << fi,
        t == 1u64 << ti,
        fi < 64,
        ti < 64,
        (if white {
            wt
        } else {
            bk
        }) & f != 0,
        (if white {
            bk
        } else {
            wt
        }) & t != 0,
        ki & t == 0,
        m_pw ==> pw & f != 0,
        m_kn ==> kn & f != 0,
        m_bi ==> bi & f != 0,
        m_ro ==> ro & f != 0,
        m_qu ==> qu & f != 0,
        m_ki ==> ki & f != 0,
        m_pw || m_kn || m_bi || m_ro || m_qu || m_ki,
        v_pw ==> pw & t != 0,
        v_kn ==> kn & t != 0,
        v_bi ==> bi & t != 0,
        v_ro ==> ro & t != 0,
        v_qu ==> qu & t != 0,
        v_pw || v_kn || v_bi || v_ro || v_qu,
        m_pw ==> t & RANK_1_AND_8 == 0,
    ensures
        crate::bits::one_bit((if m_ki { ki ^ (f | t) } else { ki }) & (if white { wt ^ (f | t) } else { wt & !t })),
        crate::bits::one_bit((if m_ki { ki ^ (f | t) } else { ki }) & (if white { bk & !t } else { bk ^ (f | t) })),
{
}

/// The covering part of the invariant survives a plain capture.
proof fn bv_wf_capture_cover(
    pw: u64,
    kn: u64,
    bi: u64,
    ro: u64,
    qu: u64,
    ki: u64,
    wt: u64,
    bk: u64,
    occ: u64,
    em: u64,
    ep: u64,
    clock: u8,
    cr: u8,
    white: bool,
    f: u64,
    t: u64,
    fi: u64,
    ti: u64,
    m_pw: bool,
    m_kn: bool,
    m_bi: bool,
    m_ro: bool,
    m_qu: bool,
    m_ki: bool,
    v_pw: bool,
    v_kn: bool,
    v_bi: bool,
    v_ro: bool,
    v_qu: bool,
)
    requires
        wf_flat_boards(pw, kn, bi, ro, qu, ki, wt, bk, occ, em),
        clock < 100,
        f == 1u64 << fi,
        t == 1u64 << ti,
        fi < 64,
        ti < 64,
        (if white {
            wt
        } else {
            bk
        }) & f != 0,
        (if white {
            bk
        } else {
            wt
        }) & t != 0,
        ki & t == 0,
        m_pw ==> pw & f != 0,
        m_kn ==> kn & f != 0,
        m_bi ==> bi & f != 0,
        m_ro ==> ro & f != 0,
        m_qu ==> qu & f != 0,
        m_ki ==> ki & f != 0,
        m_pw || m_kn || m_bi || m_ro || m_qu || m_ki,
        v_pw ==> pw & t != 0,
        v_kn ==> kn & t != 0,
        v_bi ==> bi & t != 0,
        v_ro ==> ro & t != 0,
        v_qu ==> qu & t != 0,
        v_pw || v_kn || v_bi || v_ro || v_qu,
        m_pw ==> t & RANK_1_AND_8 == 0,
    ensures
        wf_flat_cover(
            ({
            let base = if v_pw { pw & !t } else { pw };
            if m_pw { base ^ (f | t) } else { base }
        }),
            ({
            let base = if v_kn { kn & !t } else { kn };
            if m_kn { base ^ (f | t) } else { base }
        }),
            ({
            let base = if v_bi { bi & !t } else { bi };
            if m_bi { base ^ (f | t) } else { base }
        }),
            ({
            let base = if v_ro { ro & !t } else { ro };
            if m_ro { base ^ (f | t) } else { base }
        }),
            ({
            let base = if v_qu { qu & !t } else { qu };
            if m_qu { base ^ (f | t) } else { base }
        }),
            (if m_ki { ki ^ (f | t) } else { ki }),
            (if white { wt ^ (f | t) } else { wt & !t }),
            (if white { bk & !t } else { bk ^ (f | t) }),
            (occ ^ f),
            (!(occ ^ f)),
        ),
{
    bv_wf_capture_colors(
        pw, kn, bi, ro, qu, ki, wt, bk, occ, em, ep, clock, cr, white, f, t, fi, ti, m_pw, m_kn,
        m_bi, m_ro, m_qu, m_ki, v_pw, v_kn, v_bi, v_ro, v_qu,
    );
    bv_wf_capture_union(
        pw, kn, bi, ro, qu, ki, wt, bk, occ, em, ep, clock, cr, white, f, t, fi, ti, m_pw, m_kn,
        m_bi, m_ro, m_qu, m_ki, v_pw, v_kn, v_bi, v_ro, v_qu,
    );
    bv_wf_capture_kings(
        pw, kn, bi, ro, qu, ki, wt, bk, occ, em, ep, clock, cr, white, f, t, fi, ti, m_pw, m_kn,
        m_bi, m_ro, m_qu, m_ki, v_pw, v_kn, v_bi, v_ro, v_qu,
    );
}

/// The separation part of the invariant survives a plain capture.
#[verifier::rlimit(100)]
#[verifier::spinoff_prover]
proof fn bv_wf_capture_kinds(
    pw: u64,
    kn: u64,
    bi: u64,
    ro: u64,
    qu: u64,
    ki: u64,
    wt: u64,
    bk: u64,
    occ: u64,
    em: u64,
    ep: u64,
    clock: u8,
    cr: u8,
    white: bool,
    f: u64,
    t: u64,
    fi: u64,
    ti: u64,
    m_pw: bool,
    m_kn: bool,
    m_bi: bool,
    m_ro: bool,
    m_qu: bool,
    m_ki: bool,
    v_pw: bool,
    v_kn: bool,
    v_bi: bool,
    v_ro: bool,
    v_qu: bool,
)
    by (bit_vector)
    requires
        wf_flat_boards(pw, kn, bi, ro, qu, ki, wt, bk, occ, em),
        clock < 100,
        f == 1u64 << fi,
        t == 1u64 << ti,
        fi < 64,
        ti < 64,
        (if white {
            wt
        } else {
            bk
        }) & f != 0,
        (if white {
            bk
        } else {
            wt
        }) & t != 0,
        ki & t == 0,
        m_pw ==> pw & f != 0,
        m_kn ==> kn & f != 0,
        m_bi ==> bi & f != 0,
        m_ro ==> ro & f != 0,
        m_qu ==> qu & f != 0,
        m_ki ==> ki & f != 0,
        m_pw || m_kn || m_bi || m_ro || m_qu || m_ki,
        v_pw ==> pw & t != 0,
        v_kn ==> kn & t != 0,
        v_bi ==> bi & t != 0,
        v_ro ==> ro & t != 0,
        v_qu ==> qu & t != 0,
        v_pw || v_kn || v_bi || v_ro || v_qu,
        m_pw ==> t & RANK_1_AND_8 == 0,
    ensures
        wf_flat_kinds(
            ({
            let base = if v_pw { pw & !t } else { pw };
            if m_pw { base ^ (f | t) } else { base }
        }),
            ({
            let base = if v_kn { kn & !t } else { kn };
            if m_kn { base ^ (f | t) } else { base }
        }),
            ({
            let base = if v_bi { bi & !t } else { bi };
            if m_bi { base ^ (f | t) } else { base }
        }),
            ({
            let base = if v_ro { ro & !t } else { ro };
            if m_ro { base ^ (f | t) } else { base }
        }),
            ({
            let base = if v_qu { qu & !t } else { qu };
            if m_qu { base ^ (f | t) } else { base }
        }),
            (if m_ki { ki ^ (f | t) } else { ki }),
        ),
{
}

/// The placement half of the invariant survives a plain capture.
proof fn bv_wf_capture_boards(
    pw: u64,
    kn: u64,
    bi: u64,
    ro: u64,
    qu: u64,
    ki: u64,
    wt: u64,
    bk: u64,
    occ: u64,
    em: u64,
    ep: u64,
    clock: u8,
    cr: u8,
    white: bool,
    f: u64,
    t: u64,
    fi: u64,
    ti: u64,
    m_pw: bool,
    m_kn: bool,
    m_bi: bool,
    m_ro: bool,
    m_qu: bool,
    m_ki: bool,
    v_pw: bool,
    v_kn: bool,
    v_bi: bool,
    v_ro: bool,
    v_qu: bool,
)
    requires
        wf_flat_boards(pw, kn, bi, ro, qu, ki, wt, bk, occ, em),
        clock < 100,
        f == 1u64 << fi,
        t == 1u64 << ti,
        fi < 64,
        ti < 64,
        (if white {
            wt
        } else {
            bk
        }) & f != 0,
        (if white {
            bk
        } else {
            wt
        }) & t != 0,
        ki & t == 0,
        m_pw ==> pw & f != 0,
        m_kn ==> kn & f != 0,
        m_bi ==> bi & f != 0,
        m_ro ==> ro & f != 0,
        m_qu ==> qu & f != 0,
        m_ki ==> ki & f != 0,
        m_pw || m_kn || m_bi || m_ro || m_qu || m_ki,
        v_pw ==> pw & t != 0,
        v_kn ==> kn & t != 0,
        v_bi ==> bi & t != 0,
        v_ro ==> ro & t != 0,
        v_qu ==> qu & t != 0,
        v_pw || v_kn || v_bi || v_ro || v_qu,
        m_pw ==> t & RANK_1_AND_8 == 0,
    ensures
        wf_flat_boards(
            ({
            let base = if v_pw { pw & !t } else { pw };
            if m_pw { base ^ (f | t) } else { base }
        }),
            ({
            let base = if v_kn { kn & !t } else { kn };
            if m_kn { base ^ (f | t) } else { base }
        }),
            ({
            let base = if v_bi { bi & !t } else { bi };
            if m_bi { base ^ (f | t) } else { base }
        }),
            ({
            let base = if v_ro { ro & !t } else { ro };
            if m_ro { base ^ (f | t) } else { base }
        }),
            ({
            let base = if v_qu { qu & !t } else { qu };
            if m_qu { base ^ (f | t) } else { base }
        }),
            (if m_ki { ki ^ (f | t) } else { ki }),
            (if white { wt ^ (f | t) } else { wt & !t }),
            (if white { bk & !t } else { bk ^ (f | t) }),
            (occ ^ f),
            (!(occ ^ f)),
        ),
{
    bv_wf_capture_cover(
        pw, kn, bi, ro, qu, ki, wt, bk, occ, em, ep, clock, cr, white, f, t, fi, ti, m_pw, m_kn,
        m_bi, m_ro, m_qu, m_ki, v_pw, v_kn, v_bi, v_ro, v_qu,
    );
    bv_wf_capture_kinds(
        pw, kn, bi, ro, qu, ki, wt, bk, occ, em, ep, clock, cr, white, f, t, fi, ti, m_pw, m_kn,
        m_bi, m_ro, m_qu, m_ki, v_pw, v_kn, v_bi, v_ro, v_qu,
    );
}

/// The scalar half of the invariant survives a plain capture.
#[verifier::rlimit(100)]
#[verifier::spinoff_prover]
proof fn bv_wf_capture_scalars(
    pw: u64,
    kn: u64,
    bi: u64,
    ro: u64,
    qu: u64,
    ki: u64,
    wt: u64,
    bk: u64,
    occ: u64,
    em: u64,
    ep: u64,
    clock: u8,
    cr: u8,
    white: bool,
    f: u64,
    t: u64,
    fi: u64,
    ti: u64,
    m_pw: bool,
    m_kn: bool,
    m_bi: bool,
    m_ro: bool,
    m_qu: bool,
    m_ki: bool,
    v_pw: bool,
    v_kn: bool,
    v_bi: bool,
    v_ro: bool,
    v_qu: bool,
)
    by (bit_vector)
    requires
        wf_flat(pw, kn, bi, ro, qu, ki, wt, bk, occ, em, ep, clock, cr, white),
        clock < 100,
        f == 1u64 << fi,
        t == 1u64 << ti,
        fi < 64,
        ti < 64,
        (if white {
            wt
        } else {
            bk
        }) & f != 0,
        (if white {
            bk
        } else {
            wt
        }) & t != 0,
        ki & t == 0,
        m_pw ==> pw & f != 0,
        m_kn ==> kn & f != 0,
        m_bi ==> bi & f != 0,
        m_ro ==> ro & f != 0,
        m_qu ==> qu & f != 0,
        m_ki ==> ki & f != 0,
        m_pw || m_kn || m_bi || m_ro || m_qu || m_ki,
        v_pw ==> pw & t != 0,
        v_kn ==> kn & t != 0,
        v_bi ==> bi & t != 0,
        v_ro ==> ro & t != 0,
        v_qu ==> qu & t != 0,
        v_pw || v_kn || v_bi || v_ro || v_qu,
        m_pw ==> t & RANK_1_AND_8 == 0,
    ensures
        wf_flat_scalars(
            ({
            let base = if v_pw { pw & !t } else { pw };
            if m_pw { base ^ (f | t) } else { base }
        }),
            ({
            let base = if v_ro { ro & !t } else { ro };
            if m_ro { base ^ (f | t) } else { base }
        }),
            (if m_ki { ki ^ (f | t) } else { ki }),
            (if white { wt ^ (f | t) } else { wt & !t }),
            (if white { bk & !t } else { bk ^ (f | t) }),
            0,
            0,
            cr & castle_keep(fi) & castle_keep(ti),
            !white,
        ),
{
}

/// A plain capture preserves the invariant.
proof fn bv_wf_capture(
    pw: u64,
    kn: u64,
    bi: u64,
    ro: u64,
    qu: u64,
    ki: u64,
    wt: u64,
    bk: u64,
    occ: u64,
    em: u64,
    ep: u64,
    clock: u8,
    cr: u8,
    white: bool,
    f: u64,
    t: u64,
    fi: u64,
    ti: u64,
    m_pw: bool,
    m_kn: bool,
    m_bi: bool,
    m_ro: bool,
    m_qu: bool,
    m_ki: bool,
    v_pw: bool,
    v_kn: bool,
    v_bi: bool,
    v_ro: bool,
    v_qu: bool,
)
    requires
        wf_flat(pw, kn, bi, ro, qu, ki, wt, bk, occ, em, ep, clock, cr, white),
        clock < 100,
        f == 1u64 << fi,
        t == 1u64 << ti,
        fi < 64,
        ti < 64,
        (if white {
            wt
        } else {
            bk
        }) & f != 0,
        (if white {
            bk
        } else {
            wt
        }) & t != 0,
        ki & t == 0,
        m_pw ==> pw & f != 0,
        m_kn ==> kn & f != 0,
        m_bi ==> bi & f != 0,
        m_ro ==> ro & f != 0,
        m_qu ==> qu & f != 0,
        m_ki ==> ki & f != 0,
        m_pw || m_kn || m_bi || m_ro || m_qu || m_ki,
        v_pw ==> pw & t != 0,
        v_kn ==> kn & t != 0,
        v_bi ==> bi & t != 0,
        v_ro ==> ro & t != 0,
        v_qu ==> qu & t != 0,
        v_pw || v_kn || v_bi || v_ro || v_qu,
        m_pw ==> t & RANK_1_AND_8 == 0,
    ensures
        wf_flat(
            ({
            let base = if v_pw { pw & !t } else { pw };
            if m_pw { base ^ (f | t) } else { base }
        }),
            ({
            let base = if v_kn { kn & !t } else { kn };
            if m_kn { base ^ (f | t) } else { base }
        }),
            ({
            let base = if v_bi { bi & !t } else { bi };
            if m_bi { base ^ (f | t) } else { base }
        }),
            ({
            let base = if v_ro { ro & !t } else { ro };
            if m_ro { base ^ (f | t) } else { base }
        }),
            ({
            let base = if v_qu { qu & !t } else { qu };
            if m_qu { base ^ (f | t) } else { base }
        }),
            (if m_ki { ki ^ (f | t) } else { ki }),
            (if white { wt ^ (f | t) } else { wt & !t }),
            (if white { bk & !t } else { bk ^ (f | t) }),
            (occ ^ f),
            (!(occ ^ f)),
            0,
            0,
            cr & castle_keep(fi) & castle_keep(ti),
            !white,
        ),
{
    bv_wf_capture_boards(
        pw, kn, bi, ro, qu, ki, wt, bk, occ, em, ep, clock, cr, white, f, t, fi, ti, m_pw, m_kn,
            m_bi, m_ro, m_qu, m_ki, v_pw, v_kn, v_bi, v_ro, v_qu,
    );
    bv_wf_capture_scalars(
        pw, kn, bi, ro, qu, ki, wt, bk, occ, em, ep, clock, cr, white, f, t, fi, ti, m_pw, m_kn,
            m_bi, m_ro, m_qu, m_ki, v_pw, v_kn, v_bi, v_ro, v_qu,
    );
}

/// The placement half of the invariant survives a promotion.
#[verifier::rlimit(100)]
#[verifier::spinoff_prover]
proof fn bv_wf_promo_boards(
    pw: u64,
    kn: u64,
    bi: u64,
    ro: u64,
    qu: u64,
    ki: u64,
    wt: u64,
    bk: u64,
    occ: u64,
    em: u64,
    ep: u64,
    clock: u8,
    cr: u8,
    white: bool,
    f: u64,
    t: u64,
    fi: u64,
    ti: u64,
    p_kn: bool,
    p_bi: bool,
    p_ro: bool,
    p_qu: bool,
    is_cap: bool,
    v_pw: bool,
    v_kn: bool,
    v_bi: bool,
    v_ro: bool,
    v_qu: bool,
)
    by (bit_vector)
    requires
        wf_flat_boards(pw, kn, bi, ro, qu, ki, wt, bk, occ, em),
        clock < 100,
        f == 1u64 << fi,
        t == 1u64 << ti,
        fi < 64,
        ti < 64,
        (if white {
            wt
        } else {
            bk
        }) & f != 0,
        pw & f != 0,
        if white {
            f & RANK7 != 0
        } else {
            f & RANK2 != 0
        },
        p_kn || p_bi || p_ro || p_qu,
        p_kn ==> !p_bi && !p_ro && !p_qu,
        p_bi ==> !p_kn && !p_ro && !p_qu,
        p_ro ==> !p_kn && !p_bi && !p_qu,
        p_qu ==> !p_kn && !p_bi && !p_ro,
        is_cap ==> ((if white {
            bk
        } else {
            wt
        }) & t != 0 && ki & t == 0 && (v_pw || v_kn || v_bi || v_ro || v_qu)),
        is_cap ==> (v_pw ==> pw & t != 0) && (v_kn ==> kn & t != 0) && (v_bi ==> bi & t != 0) && (
        v_ro ==> ro & t != 0) && (v_qu ==> qu & t != 0),
        !is_cap ==> occ & t == 0,
    ensures
        wf_flat_boards(
            ((if is_cap && v_pw { pw & !t } else { pw }) & !f),
            ({
            let base = if is_cap && v_kn { kn & !t } else { kn };
            if p_kn { base | t } else { base }
        }),
            ({
            let base = if is_cap && v_bi { bi & !t } else { bi };
            if p_bi { base | t } else { base }
        }),
            ({
            let base = if is_cap && v_ro { ro & !t } else { ro };
            if p_ro { base | t } else { base }
        }),
            ({
            let base = if is_cap && v_qu { qu & !t } else { qu };
            if p_qu { base | t } else { base }
        }),
            ki,
            (if white { wt ^ (f | t) } else { if is_cap { wt & !t } else { wt } }),
            (if white { if is_cap { bk & !t } else { bk } } else { bk ^ (f | t) }),
            (if is_cap { occ ^ f } else { occ ^ (f | t) }),
            (!(if is_cap { occ ^ f } else { occ ^ (f | t) })),
        ),
{
}

/// The scalar half of the invariant survives a promotion.
#[verifier::rlimit(100)]
#[verifier::spinoff_prover]
proof fn bv_wf_promo_scalars(
    pw: u64,
    kn: u64,
    bi: u64,
    ro: u64,
    qu: u64,
    ki: u64,
    wt: u64,
    bk: u64,
    occ: u64,
    em: u64,
    ep: u64,
    clock: u8,
    cr: u8,
    white: bool,
    f: u64,
    t: u64,
    fi: u64,
    ti: u64,
    p_kn: bool,
    p_bi: bool,
    p_ro: bool,
    p_qu: bool,
    is_cap: bool,
    v_pw: bool,
    v_kn: bool,
    v_bi: bool,
    v_ro: bool,
    v_qu: bool,
)
    by (bit_vector)
    requires
        wf_flat(pw, kn, bi, ro, qu, ki, wt, bk, occ, em, ep, clock, cr, white),
        clock < 100,
        f == 1u64 << fi,
        t == 1u64 << ti,
        fi < 64,
        ti < 64,
        (if white {
            wt
        } else {
            bk
        }) & f != 0,
        pw & f != 0,
        if white {
            f & RANK7 != 0
        } else {
            f & RANK2 != 0
        },
        p_kn || p_bi || p_ro || p_qu,
        p_kn ==> !p_bi && !p_ro && !p_qu,
        p_bi ==> !p_kn && !p_ro && !p_qu,
        p_ro ==> !p_kn && !p_bi && !p_qu,
        p_qu ==> !p_kn && !p_bi && !p_ro,
        is_cap ==> ((if white {
            bk
        } else {
            wt
        }) & t != 0 && ki & t == 0 && (v_pw || v_kn || v_bi || v_ro || v_qu)),
        is_cap ==> (v_pw ==> pw & t != 0) && (v_kn ==> kn & t != 0) && (v_bi ==> bi & t != 0) && (
        v_ro ==> ro & t != 0) && (v_qu ==> qu & t != 0),
        !is_cap ==> occ & t == 0,
    ensures
        wf_flat_scalars(
            ((if is_cap && v_pw { pw & !t } else { pw }) & !f),
            ({
            let base = if is_cap && v_ro { ro & !t } else { ro };
            if p_ro { base | t } else { base }
        }),
            ki,
            (if white { wt ^ (f | t) } else { if is_cap { wt & !t } else { wt } }),
            (if white { if is_cap { bk & !t } else { bk } } else { bk ^ (f | t) }),
            0,
            0,
            cr & castle_keep(fi) & castle_keep(ti),
            !white,
        ),
{
}

/// A promotion, capturing or not, preserves the invariant.
proof fn bv_wf_promo(
    pw: u64,
    kn: u64,
    bi: u64,
    ro: u64,
    qu: u64,
    ki: u64,
    wt: u64,
    bk: u64,
    occ: u64,
    em: u64,
    ep: u64,
    clock: u8,
    cr: u8,
    white: bool,
    f: u64,
    t: u64,
    fi: u64,
    ti: u64,
    p_kn: bool,
    p_bi: bool,
    p_ro: bool,
    p_qu: bool,
    is_cap: bool,
    v_pw: bool,
    v_kn: bool,
    v_bi: bool,
    v_ro: bool,
    v_qu: bool,
)
    requires
        wf_flat(pw, kn, bi, ro, qu, ki, wt, bk, occ, em, ep, clock, cr, white),
        clock < 100,
        f == 1u64 << fi,
        t == 1u64 << ti,
        fi < 64,
        ti < 64,
        (if white {
            wt
        } else {
            bk
        }) & f != 0,
        pw & f != 0,
        if white {
            f & RANK7 != 0
        } else {
            f & RANK2 != 0
        },
        p_kn || p_bi || p_ro || p_qu,
        p_kn ==> !p_bi && !p_ro && !p_qu,
        p_bi ==> !p_kn && !p_ro && !p_qu,
        p_ro ==> !p_kn && !p_bi && !p_qu,
        p_qu ==> !p_kn && !p_bi && !p_ro,
        is_cap ==> ((if white {
            bk
        } else {
            wt
        }) & t != 0 && ki & t == 0 && (v_pw || v_kn || v_bi || v_ro || v_qu)),
        is_cap ==> (v_pw ==> pw & t != 0) && (v_kn ==> kn & t != 0) && (v_bi ==> bi & t != 0) && (
        v_ro ==> ro & t != 0) && (v_qu ==> qu & t != 0),
        !is_cap ==> occ & t == 0,
    ensures
        wf_flat(
            ((if is_cap && v_pw { pw & !t } else { pw }) & !f),
            ({
            let base = if is_cap && v_kn { kn & !t } else { kn };
            if p_kn { base | t } else { base }
        }),
            ({
            let base = if is_cap && v_bi { bi & !t } else { bi };
            if p_bi { base | t } else { base }
        }),
            ({
            let base = if is_cap && v_ro { ro & !t } else { ro };
            if p_ro { base | t } else { base }
        }),
            ({
            let base = if is_cap && v_qu { qu & !t } else { qu };
            if p_qu { base | t } else { base }
        }),
            ki,
            (if white { wt ^ (f | t) } else { if is_cap { wt & !t } else { wt } }),
            (if white { if is_cap { bk & !t } else { bk } } else { bk ^ (f | t) }),
            (if is_cap { occ ^ f } else { occ ^ (f | t) }),
            (!(if is_cap { occ ^ f } else { occ ^ (f | t) })),
            0,
            0,
            cr & castle_keep(fi) & castle_keep(ti),
            !white,
        ),
{
    bv_wf_promo_boards(
        pw, kn, bi, ro, qu, ki, wt, bk, occ, em, ep, clock, cr, white, f, t, fi, ti, p_kn, p_bi,
            p_ro, p_qu, is_cap, v_pw, v_kn, v_bi, v_ro, v_qu,
    );
    bv_wf_promo_scalars(
        pw, kn, bi, ro, qu, ki, wt, bk, occ, em, ep, clock, cr, white, f, t, fi, ti, p_kn, p_bi,
            p_ro, p_qu, is_cap, v_pw, v_kn, v_bi, v_ro, v_qu,
    );
}

/// An en-passant capture preserves the invariant.
#[verifier::rlimit(80)]
proof fn bv_wf_ep(
    pw: u64,
    kn: u64,
    bi: u64,
    ro: u64,
    qu: u64,
    ki: u64,
    wt: u64,
    bk: u64,
    occ: u64,
    em: u64,
    ep: u64,
    clock: u8,
    cr: u8,
    white: bool,
    f: u64,
    t: u64,
    fi: u64,
    ti: u64,
)
    by (bit_vector)
    requires
        wf_flat(pw, kn, bi, ro, qu, ki, wt, bk, occ, em, ep, clock, cr, white),
        clock < 100,
        f == 1u64 << fi,
        t == 1u64 << ti,
        fi < 64,
        ti < 64,
        (if white {
            wt
        } else {
            bk
        }) & f != 0,
        pw & f != 0,
        ep != 0,
        if white {
            t == ep << 8
        } else {
            t == ep >> 8
        },
        occ & t == 0,
    ensures
        wf_flat(
            (pw ^ (f | t)) & !ep,
            kn,
            bi,
            ro,
            qu,
            ki,
            if white {
                wt ^ (f | t)
            } else {
                wt & !ep
            },
            if white {
                bk & !ep
            } else {
                bk ^ (f | t)
            },
            (occ ^ (f | t)) & !ep,
            !((occ ^ (f | t)) & !ep),
            0,
            0,
            cr & castle_keep(fi) & castle_keep(ti),
            !white,
        ),
{
}

/// Castling preserves the invariant.
#[verifier::rlimit(80)]
proof fn bv_wf_castle(
    pw: u64,
    kn: u64,
    bi: u64,
    ro: u64,
    qu: u64,
    ki: u64,
    wt: u64,
    bk: u64,
    occ: u64,
    em: u64,
    ep: u64,
    clock: u8,
    cr: u8,
    white: bool,
    kingside: bool,
    f: u64,
    t: u64,
    fi: u64,
    ti: u64,
)
    by (bit_vector)
    requires
        wf_flat(pw, kn, bi, ro, qu, ki, wt, bk, occ, em, ep, clock, cr, white),
        clock < 100,
        f == 1u64 << fi,
        t == 1u64 << ti,
        fi < 64,
        ti < 64,
        white && kingside ==> cr & WKING_SIDE_MASK != 0 && f == E1_BB && t == G1_BB && occ & (F1_BB
            | G1_BB) == 0,
        white && !kingside ==> cr & WQUEEN_SIDE_MASK != 0 && f == E1_BB && t == C1_BB && occ & (
        B1_BB | C1_BB | D1_BB) == 0,
        !white && kingside ==> cr & BKING_SIDE_MASK != 0 && f == E8_BB && t == G8_BB && occ & (F8_BB
            | G8_BB) == 0,
        !white && !kingside ==> cr & BQUEEN_SIDE_MASK != 0 && f == E8_BB && t == C8_BB && occ & (
        B8_BB | C8_BB | D8_BB) == 0,
    ensures
        ({
            let rft: u64 = if white {
                if kingside {
                    H1_BB | F1_BB
                } else {
                    A1_BB | D1_BB
                }
            } else {
                if kingside {
                    H8_BB | F8_BB
                } else {
                    A8_BB | D8_BB
                }
            };
            wf_flat(
                pw,
                kn,
                bi,
                ro ^ rft,
                qu,
                ki ^ (f | t),
                if white {
                    wt ^ (f | t) ^ rft
                } else {
                    wt
                },
                if white {
                    bk
                } else {
                    bk ^ (f | t) ^ rft
                },
                occ ^ (f | t) ^ rft,
                !(occ ^ (f | t) ^ rft),
                0,
                (clock + 1) as u8,
                cr & castle_keep(fi) & castle_keep(ti),
                !white,
            )
        }),
{
}

/// Applying a valid move to a well-formed position yields a well-formed
/// position: the invariant survives every move the generator returns.
pub proof fn lemma_apply_wf(b: Board, m: CMove)
    requires
        b.wf(),
        move_ok(b, m),
    ensures
        apply_spec(b, m).wf(),
{
    m.lemma_fields();
    lemma_wf_flat(b);
    crate::bits::lemma_bit_ops();
    let fi = m.from_sq();
    let ti = m.to_sq();
    let f = 1u64 << fi;
    let t = 1u64 << ti;
    let fl = m.flags_of();
    let white = b.side_to_move == Color::White;
    let a = apply_spec(b, m);
    lemma_wf_flat(a);
    if fl == KING_CASTLE || fl == QUEEN_CASTLE {
        bv_wf_castle(
            b.pawn_bb,
            b.knight_bb,
            b.bishop_bb,
            b.rook_bb,
            b.queen_bb,
            b.king_bb,
            b.white_bb,
            b.black_bb,
            b.occupied_bb,
            b.empty_bb,
            b.en_passant_bb,
            b.halfmove_clock,
            b.castling_rights,
            white,
            fl == KING_CASTLE,
            f,
            t,
            fi,
            ti,
        );
    } else if fl == EP_CAPTURE {
        bv_wf_ep(
            b.pawn_bb,
            b.knight_bb,
            b.bishop_bb,
            b.rook_bb,
            b.queen_bb,
            b.king_bb,
            b.white_bb,
            b.black_bb,
            b.occupied_bb,
            b.empty_bb,
            b.en_passant_bb,
            b.halfmove_clock,
            b.castling_rights,
            white,
            f,
            t,
            fi,
            ti,
        );
    } else if fl == CAPTURE {
        let mp = kind_at(b, fi);
        let vp = kind_at(b, ti);
        bv_kind_cover(
            b.pawn_bb,
            b.knight_bb,
            b.bishop_bb,
            b.rook_bb,
            b.queen_bb,
            b.king_bb,
            b.white_bb,
            b.black_bb,
            b.occupied_bb,
            f,
        );
        bv_kind_cover(
            b.pawn_bb,
            b.knight_bb,
            b.bishop_bb,
            b.rook_bb,
            b.queen_bb,
            b.king_bb,
            b.white_bb,
            b.black_bb,
            b.occupied_bb,
            t,
        );
        bv_wf_capture(
            b.pawn_bb,
            b.knight_bb,
            b.bishop_bb,
            b.rook_bb,
            b.queen_bb,
            b.king_bb,
            b.white_bb,
            b.black_bb,
            b.occupied_bb,
            b.empty_bb,
            b.en_passant_bb,
            b.halfmove_clock,
            b.castling_rights,
            white,
            f,
            t,
            fi,
            ti,
            mp == Piece::Pawn,
            mp == Piece::Knight,
            mp == Piece::Bishop,
            mp == Piece::Rook,
            mp == Piece::Queen,
            mp == Piece::King,
            vp == Piece::Pawn,
            vp == Piece::Knight,
            vp == Piece::Bishop,
            vp == Piece::Rook,
            vp == Piece::Queen,
        );
    } else if 8 <= fl {
        let pt = promo_target(fl);
        let vp = kind_at(b, ti);
        if 12 <= fl {
            bv_kind_cover(
                b.pawn_bb,
                b.knight_bb,
                b.bishop_bb,
                b.rook_bb,
                b.queen_bb,
                b.king_bb,
                b.white_bb,
                b.black_bb,
                b.occupied_bb,
                t,
            );
        }
        bv_wf_promo(
            b.pawn_bb,
            b.knight_bb,
            b.bishop_bb,
            b.rook_bb,
            b.queen_bb,
            b.king_bb,
            b.white_bb,
            b.black_bb,
            b.occupied_bb,
            b.empty_bb,
            b.en_passant_bb,
            b.halfmove_clock,
            b.castling_rights,
            white,
            f,
            t,
            fi,
            ti,
            pt == Piece::Knight,
            pt == Piece::Bishop,
            pt == Piece::Rook,
            pt == Piece::Queen,
            12 <= fl,
            vp == Piece::Pawn,
            vp == Piece::Knight,
            vp == Piece::Bishop,
            vp == Piece::Rook,
            vp == Piece::Queen,
        );
    } else {
        let mp = kind_at(b, fi);
        bv_kind_cover(
            b.pawn_bb,
            b.knight_bb,
            b.bishop_bb,
            b.rook_bb,
            b.queen_bb,
            b.king_bb,
            b.white_bb,
            b.black_bb,
            b.occupied_bb,
            f,
        );
        bv_wf_quiet(
            b.pawn_bb,
            b.knight_bb,
            b.bishop_bb,
            b.rook_bb,
            b.queen_bb,
            b.king_bb,
            b.white_bb,
            b.black_bb,
            b.occupied_bb,
            b.empty_bb,
            b.en_passant_bb,
            b.halfmove_clock,
            b.castling_rights,
            white,
            f,
            t,
            fi,
            ti,
            mp == Piece::Pawn,
            mp == Piece::Knight,
            mp == Piece::Bishop,
            mp == Piece::Rook,
            mp == Piece::Queen,
            mp == Piece::King,
            fl == PAWN_DPUSH,
        );
    }
}

/// Returns the castling rights a move touching square `i` leaves in place.
fn keep_rights(i: u8) -> (r: u8)
    ensures
        r == castle_keep(i as u64),
{
    if i == 4 {
        12
    } else if i == 0 {
        13
    } else if i == 7 {
        14
    } else if i == 60 {
        3
    } else if i == 56 {
        7
    } else if i == 63 {
        11
    } else {
        15
    }
}

impl Board {
    /// The kind of the piece on the occupied square `i`.
    pub(crate) fn kind_on(&self, i: u8) -> (p: Piece)
        requires
            i < 64,
        ensures
            p == kind_at(*self, i as u64),
    {
        let f: u64 = 1u64 << i;
        if self.pawn_bb & f != 0 {
            Piece::Pawn
        } else if self.knight_bb & f != 0 {
            Piece::Knight
        } else if self.bishop_bb & f != 0 {
            Piece::Bishop
        } else if self.rook_bb & f != 0 {
            Piece::Rook
        } else if self.queen_bb & f != 0 {
            Piece::Queen
        } else {
            Piece::King
        }
    }

    /// Replaces the kind board of `p` with `v`.
    fn set_kind(&mut self, p: Piece, v: u64)
        ensures
            *final(self) == with_kind(*old(self), p, v),
    {
        match p {
            Piece::Pawn => self.pawn_bb = v,
            Piece::Knight => self.knight_bb = v,
            Piece::Bishop => self.bishop_bb = v,
            Piece::Rook => self.rook_bb = v,
            Piece::Queen => self.queen_bb = v,
            Piece::King => self.king_bb = v,
        }
    }

    /// Reads the kind board of `p`.
    fn get_kind(&self, p: Piece) -> (r: u64)
        ensures
            r == self.kind_bb(p),
    {
        match p {
            Piece::Pawn => self.pawn_bb,
            Piece::Knight => self.knight_bb,
            Piece::Bishop => self.bishop_bb,
            Piece::Rook => self.rook_bb,
            Piece::Queen => self.queen_bb,
            Piece::King => self.king_bb,
        }
    }

    /// Plays the move `m`, updating the position in place. The move must
    /// come from the generator (or satisfy `move_ok` otherwise); the
    /// position invariant is preserved.
    pub fn make_move_mut(&mut self, m: &CMove)
        requires
            old(self).wf(),
            move_ok(*old(self), *m),
        ensures
            *final(self) == apply_spec(*old(self), *m),
            final(self).wf(),
    {
        proof {
            m.lemma_fields();
            lemma_apply_wf(*old(self), *m);
        }
        let fl = m.get_flags();
        let fi: u8 = m.get_from().index();
        let ti: u8 = m.get_to().index();
        let f: u64 = 1u64 << fi;
        let t: u64 = 1u64 << ti;
        let ft: u64 = f | t;
        let white = match self.side_to_move {
            Color::White => true,
            Color::Black => false,
        };
        let rights = self.castling_rights & keep_rights(fi) & keep_rights(ti);
        let stm = self.side_to_move.op();
        if fl == KING_CASTLE || fl == QUEEN_CASTLE {
            let rft: u64 = if white {
                if fl == KING_CASTLE {
                    H1_BB | F1_BB
                } else {
                    A1_BB | D1_BB
                }
            } else {
                if fl == KING_CASTLE {
                    H8_BB | F8_BB
                } else {
                    A8_BB | D8_BB
                }
            };
            self.king_bb = self.king_bb ^ ft;
            self.rook_bb = self.rook_bb ^ rft;
            if white {
                self.white_bb = self.white_bb ^ ft ^ rft;
            } else {
                self.black_bb = self.black_bb ^ ft ^ rft;
            }
            self.occupied_bb = self.occupied_bb ^ ft ^ rft;
            self.empty_bb = !self.occupied_bb;
            self.en_passant_bb = 0;
            self.halfmove_clock = self.halfmove_clock + 1;
        } else if fl == EP_CAPTURE {
            let cap = self.en_passant_bb;
            self.pawn_bb = (self.pawn_bb ^ ft) & !cap;
            if white {
                self.white_bb = self.white_bb ^ ft;
                self.black_bb = self.black_bb & !cap;
            } else {
                self.white_bb = self.white_bb & !cap;
                self.black_bb = self.black_bb ^ ft;
            }
            self.occupied_bb = (self.occupied_bb ^ ft) & !cap;
            self.empty_bb = !self.occupied_bb;
            self.en_passant_bb = 0;
            self.halfmove_clock = 0;
        } else if fl == CAPTURE || fl >= 12 {
            let v = self.kind_on(ti);
            let p = self.kind_on(fi);
            let cleared = self.get_kind(v) & !t;
            self.set_kind(v, cleared);
            if fl >= 12 {
                let promo = match fl % 4 {
                    0u16 => Piece::Knight,
                    1u16 => Piece::Bishop,
                    2u16 => Piece::Rook,
                    _ => Piece::Queen,
                };
                let pawns = self.pawn_bb & !f;
                self.set_kind(Piece::Pawn, pawns);
                let promoted = self.get_kind(promo) | t;
                self.set_kind(promo, promoted);
            } else {
                let moved = self.get_kind(p) ^ ft;
                self.set_kind(p, moved);
            }
            if white {
                self.white_bb = self.white_bb ^ ft;
                self.black_bb = self.black_bb & !t;
            } else {
                self.white_bb = self.white_bb & !t;
                self.black_bb = self.black_bb ^ ft;
            }
            self.occupied_bb = self.occupied_bb ^ f;
            self.empty_bb = !self.occupied_bb;
            self.en_passant_bb = 0;
            self.halfmove_clock = 0;
        } else if fl >= 8 {
            let promo = match fl % 4 {
                0u16 => Piece::Knight,
                1u16 => Piece::Bishop,
                2u16 => Piece::Rook,
                _ => Piece::Queen,
            };
            let pawns = self.pawn_bb & !f;
            self.set_kind(Piece::Pawn, pawns);
            let promoted = self.get_kind(promo) | t;
            self.set_kind(promo, promoted);
            if white {
                self.white_bb = self.white_bb ^ ft;
            } else {
                self.black_bb = self.black_bb ^ ft;
            }
            self.occupied_bb = self.occupied_bb ^ ft;
            self.empty_bb = !self.occupied_bb;
            self.en_passant_bb = 0;
            self.halfmove_clock = 0;
        } else {
            let p = self.kind_on(fi);
            let moved = self.get_kind(p) ^ ft;
            self.set_kind(p, moved);
            if white {
                self.white_bb = self.white_bb ^ ft;
            } else {
                self.black_bb = self.black_bb ^ ft;
            }
            self.occupied_bb = self.occupied_bb ^ ft;
            self.empty_bb = !self.occupied_bb;
            self.en_passant_bb = if fl == PAWN_DPUSH {
                t
            } else {
                0
            };
            self.halfmove_clock = match p {
                Piece::Pawn => 0,
                _ => self.halfmove_clock + 1,
            };
        }
        self.castling_rights = rights;
        self.side_to_move = stm;
    }
}

} // verus!
