use vstd::prelude::*;

verus! {

/// The closed set of failures the position-text decoder can report.
/// One structural error (`InvalidLength`) and one error per grammar field.
#[derive(Debug, Clone, Copy, PartialEq, Eq)]
pub enum FenParseError {
    /// The input did not split into exactly six space-separated fields.
    InvalidLength,
    /// The piece-placement field held a bad character, too many files in a
    /// group, or a group count other than eight.
    InvalidPiecePlacement,
    /// The side-to-move field was neither `"w"` nor `"b"`.
    InvalidSide,
    /// The castling-rights field held a character outside `-`, `K`, `Q`, `k`, `q`.
    InvalidCastlingRights,
    /// The en-passant field was neither `"-"` nor a valid algebraic square.
    InvalidEnPassant,
    /// A move-clock field was not a number fitting its width.
    InvalidMoveClock,
}

/// Failure of a rank/file-addressed bitboard operation.
#[derive(Debug, Clone, Copy, PartialEq, Eq)]
pub enum BitboardError {
    /// A rank or file outside `0..=7` was supplied.
    InvalidRankOrFile,
}

/// Failure of a `Square` construction.
#[derive(Debug, Clone, Copy, PartialEq, Eq)]
pub enum SquareError {
    /// A rank or file outside `0..=7` was supplied.
    InvalidFileRank,
    /// Algebraic text that does not name a board square.
    InvalidSquare,
}

} // verus!
