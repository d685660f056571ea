use vstd::prelude::*;

verus! {

/// The four castling permissions (white/black x kingside/queenside) packed
/// into the low four bits of one byte. The flags are independent: no
/// cross-flag invariant holds, and every combination of the four bits is a
/// meaningful rights value.
#[derive(Debug, Clone, Copy, PartialEq, Eq)]
pub struct Castling {
    pub rights: u8,
}

impl Castling {
    pub const NO_CASTLING: u8 = 0;
    pub const WHITE_00: u8 = 0b00000001;
    pub const WHITE_000: u8 = 0b00000010;
    pub const BLACK_00: u8 = 0b00000100;
    pub const BLACK_000: u8 = 0b00001000;

    pub const KING_SIDE: u8 = Self::BLACK_00 | Self::WHITE_00;
    pub const QUEEN_SIDE: u8 = Self::BLACK_000 | Self::WHITE_000;
    pub const WHITE_CASTLING: u8 = Self::WHITE_00 | Self::WHITE_000;
    pub const BLACK_CASTLING: u8 = Self::BLACK_00 | Self::BLACK_000;
    pub const ANY_CASTLING: u8 = Self::BLACK_CASTLING | Self::WHITE_CASTLING;

    /// A rights value with exactly the given mask.
    pub fn new(rights: u8) -> (r: Self)
        ensures
            r.rights == rights,
    {
        Self { rights }
    }

    /// All four flags clear: the state a decode starts from.
    pub fn none() -> (r: Self)
        ensures
            r.rights == Self::NO_CASTLING,
    {
        Self { rights: Self::NO_CASTLING }
    }

    /// All four flags set.
    pub fn all() -> (r: Self)
        ensures
            r.rights == Self::ANY_CASTLING,
    {
        Self { rights: Self::ANY_CASTLING }
    }

    /// True when white may castle kingside.
    pub fn has_kingside_white(&self) -> (r: bool)
        ensures
            r == (self.rights & Self::WHITE_00 != 0),
    {
        self.rights & Self::WHITE_00 != 0
    }

    /// True when white may castle queenside.
    pub fn has_queenside_white(&self) -> (r: bool)
        ensures
            r == (self.rights & Self::WHITE_000 != 0),
    {
        self.rights & Self::WHITE_000 != 0
    }

    /// True when black may castle kingside.
    pub fn has_kingside_black(&self) -> (r: bool)
        ensures
            r == (self.rights & Self::BLACK_00 != 0),
    {
        self.rights & Self::BLACK_00 != 0
    }

    /// True when black may castle queenside.
    pub fn has_queenside_black(&self) -> (r: bool)
        ensures
            r == (self.rights & Self::BLACK_000 != 0),
    {
        self.rights & Self::BLACK_000 != 0
    }

    /// Grants white the kingside permission; the other flags keep their value.
    pub fn add_kingside_white(&mut self)
        ensures
            final(self).rights == old(self).rights | Self::WHITE_00,
    {
        self.rights = self.rights | Self::WHITE_00;
    }

    /// Grants white the queenside permission; the other flags keep their value.
    pub fn add_queenside_white(&mut self)
        ensures
            final(self).rights == old(self).rights | Self::WHITE_000,
    {
        self.rights = self.rights | Self::WHITE_000;
    }

    /// Grants black the kingside permission; the other flags keep their value.
    pub fn add_kingside_black(&mut self)
        ensures
            final(self).rights == old(self).rights | Self::BLACK_00,
    {
        self.rights = self.rights | Self::BLACK_00;
    }

    /// Grants black the queenside permission; the other flags keep their value.
    pub fn add_queenside_black(&mut self)
        ensures
            final(self).rights == old(self).rights | Self::BLACK_000,
    {
        self.rights = self.rights | Self::BLACK_000;
    }

    /// Clears both of white's flags; black's flags keep their value.
    pub fn remove_white_castling(&mut self)
        ensures
            final(self).rights == old(self).rights & !Self::WHITE_CASTLING,
    {
        self.rights = self.rights & !Self::WHITE_CASTLING;
    }

    /// Clears both of black's flags; white's flags keep their value.
    pub fn remove_black_castling(&mut self)
        ensures
            final(self).rights == old(self).rights & !Self::BLACK_CASTLING,
    {
        self.rights = self.rights & !Self::BLACK_CASTLING;
    }

    /// Clears the kingside flag of both sides; queenside flags keep their value.
    pub fn remove_kingside(&mut self)
        ensures
            final(self).rights == old(self).rights & !Self::KING_SIDE,
    {
        self.rights = self.rights & !Self::KING_SIDE;
    }

    /// Clears the queenside flag of both sides; kingside flags keep their value.
    pub fn remove_queenside(&mut self)
        ensures
            final(self).rights == old(self).rights & !Self::QUEEN_SIDE,
    {
        self.rights = self.rights & !Self::QUEEN_SIDE;
    }
}

} // verus!
