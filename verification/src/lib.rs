//! Bitboard-based chess position core: square addressing, castling-rights
//! encoding, per-piece occupancy storage, and the six-field position-text
//! decoder that builds a `Board` from a FEN-style description.

pub mod bitboard;
pub mod board;
pub mod castling;
pub mod errors;
pub mod fen;
pub mod objects;
pub mod piece;
pub mod square;
