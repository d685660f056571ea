use vstd::prelude::*;

verus! {

/// The two sides of the game, used to address per-side storage.
#[derive(Debug, Clone, Copy, PartialEq, Eq)]
pub enum Sides {
    WHITE,
    BLACK,
}

/// The six piece types, used to address per-piece storage.
#[derive(Debug, Clone, Copy, PartialEq, Eq)]
pub enum Pieces {
    PAWN,
    BISHOP,
    KNIGHT,
    ROOK,
    QUEEN,
    KING,
}

impl Sides {
    /// The side whose turn comes next.
    pub open spec fn spec_other(self) -> Sides {
        match self {
            Sides::WHITE => Sides::BLACK,
            Sides::BLACK => Sides::WHITE,
        }
    }
}

} // verus!
