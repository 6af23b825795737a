//! A chess move-generation core built on 64-bit bitboards.
//!
//! Squares are numbered in Little-Endian Rank-File order: bit `i` stands for
//! the square with file `i % 8` (a..h) and rank `i / 8` (1..8), so a1 = 0,
//! h1 = 7, a8 = 56 and h8 = 63.

pub mod bits;
pub mod bitboard;
pub mod utils;
pub mod cmove;
pub mod board;
pub mod attacks;
pub mod apply;
pub mod pawn_moves;
pub mod movegen;
pub mod laws;
