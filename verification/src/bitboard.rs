use vstd::prelude::*;

verus! {

use crate::errors::BitboardError;
use crate::square::Square;

/// A 64-bit set of board squares: bit `rank * 8 + file` records occupancy of
/// the square at that rank and file, both counted from zero.
#[derive(Debug, Clone, Copy, PartialEq, Eq)]
pub struct BitBoard(pub u64);

/// The word with exactly the bit of linear square index `i` set.
pub open spec fn square_mask(i: int) -> u64 {
    1u64 << (i as u64)
}

impl BitBoard {
    /// True when the bit of the square at `rank`/`file` is set in this word.
    pub open spec fn spec_get(self, rank: int, file: int) -> bool {
        (self.0 >> ((rank * 8 + file) as u64)) & 1 == 1
    }

    /// The empty set: no square occupied.
    pub fn new() -> (r: Self)
        ensures
            r.0 == 0u64,
    {
        BitBoard(0)
    }

    /// Sets the bit of `square`, leaving every other bit unchanged.
    pub fn set_square(&mut self, square: &Square)
        ensures
            final(self).0 == old(self).0 | square_mask(square.linear_index()),
    {
        let (rank, file) = square.to_coords();
        let _ = self.set_bit(rank, file);
    }

    /// Clears the bit of `square`, leaving every other bit unchanged.
    pub fn unset_square(&mut self, square: &Square)
        ensures
            final(self).0 == old(self).0 & !square_mask(square.linear_index()),
    {
        let (rank, file) = square.to_coords();
        let _ = self.unset_bit(rank, file);
    }

    /// Sets the bit at `rank`/`file` when both lie in `0..=7`; any other
    /// coordinates are rejected with `InvalidRankOrFile` and the word is
    /// left unchanged.
    pub fn set_bit(&mut self, rank: u8, file: u8) -> (r: Result<(), BitboardError>)
        ensures
            rank <= 7 && file <= 7 ==> r == Ok::<(), BitboardError>(()) && final(self).0 == (
            old(self).0 | square_mask(rank as int * 8 + file as int)),
            rank > 7 || file > 7 ==> r == Err::<(), BitboardError>(BitboardError::InvalidRankOrFile)
                && *final(self) == *old(self),
    {
        if rank > 7 || file > 7 {
            return Err(BitboardError::InvalidRankOrFile);
        }
        let pos: u8 = rank * 8 + file;
        let bit: u64 = 1u64 << (pos as u64);
        self.0 = self.0 | bit;
        Ok(())
    }

    /// Clears the bit at `rank`/`file` when both lie in `0..=7`; any other
    /// coordinates are rejected with `InvalidRankOrFile` and the word is
    /// left unchanged.
    pub fn unset_bit(&mut self, rank: u8, file: u8) -> (r: Result<(), BitboardError>)
        ensures
            rank <= 7 && file <= 7 ==> r == Ok::<(), BitboardError>(()) && final(self).0 == (
            old(self).0 & !square_mask(rank as int * 8 + file as int)),
            rank > 7 || file > 7 ==> r == Err::<(), BitboardError>(BitboardError::InvalidRankOrFile)
                && *final(self) == *old(self),
    {
        if rank > 7 || file > 7 {
            return Err(BitboardError::InvalidRankOrFile);
        }
        let pos: u8 = rank * 8 + file;
        let bit: u64 = 1u64 << (pos as u64);
        self.0 = self.0 & !bit;
        Ok(())
    }

    /// Reads the bit at `rank`/`file` when both lie in `0..=7`; any other
    /// coordinates are rejected with `InvalidRankOrFile`.
    pub fn get_bit(&self, rank: u8, file: u8) -> (r: Result<bool, BitboardError>)
        ensures
            rank <= 7 && file <= 7 ==> r == Ok::<bool, BitboardError>(
                self.spec_get(rank as int, file as int),
            ),
            rank > 7 || file > 7 ==> r == Err::<bool, BitboardError>(
                BitboardError::InvalidRankOrFile,
            ),
    {
        if rank > 7 || file > 7 {
            return Err(BitboardError::InvalidRankOrFile);
        }
        let pos: u8 = rank * 8 + file;
        Ok((self.0 >> (pos as u64)) & 1 == 1)
    }
}

/// The grid character of one square: `1` when its bit is set, else `0`.
pub open spec fn spec_bit_char(bb: BitBoard, rank: int, file: int) -> char {
    if bb.spec_get(rank, file) {
        '1'
    } else {
        '0'
    }
}

/// The characters of one grid row from `file` to the right edge: one `0`/`1`
/// per square, single spaces between squares.
pub open spec fn spec_row_chars(bb: BitBoard, rank: int, file: int) -> Seq<char>
    decreases 8 - file,
{
    if file < 0 || file >= 8 {
        Seq::<char>::empty()
    } else if file < 7 {
        seq![spec_bit_char(bb, rank, file), ' '] + spec_row_chars(bb, rank, file + 1)
    } else {
        seq![spec_bit_char(bb, rank, file)]
    }
}

/// The characters of the grid rows from `rank` down to rank 0, one row per
/// line, with no newline after the last row.
pub open spec fn spec_grid_chars(bb: BitBoard, rank: int) -> Seq<char>
    decreases rank + 1,
{
    if rank < 0 {
        Seq::<char>::empty()
    } else if rank > 0 {
        spec_row_chars(bb, rank, 0) + seq!['\n'] + spec_grid_chars(bb, rank - 1)
    } else {
        spec_row_chars(bb, 0, 0)
    }
}

impl BitBoard {
    /// Renders the word as an 8x8 diagnostic grid: highest rank first, one
    /// `0`/`1` per square, squares space-separated within a row, rows on
    /// separate lines.
    pub fn render(&self) -> (r: String)
        ensures
            r@ == spec_grid_chars(*self, 7),
    {
        let mut out = String::new();
        let mut i: u8 = 0;
        proof {
            assert(Seq::<char>::empty() + spec_grid_chars(*self, 7) =~= spec_grid_chars(*self, 7));
        }
        while i < 8
            invariant
                i <= 8,
                out@ + (if i < 8 {
                    spec_grid_chars(*self, 7 - i as int)
                } else {
                    Seq::<char>::empty()
                }) == spec_grid_chars(*self, 7),
            decreases 8 - i,
        {
            let rank: u8 = 7 - i;
            let ghost row_base = out@;
            let mut file: u8 = 0;
            while file < 8
                invariant
                    file <= 8,
                    rank == 7 - i,
                    i < 8,
                    out@ + spec_row_chars(*self, rank as int, file as int) == row_base
                        + spec_row_chars(*self, rank as int, 0),
                decreases 8 - file,
            {
                let ghost before = out@;
                let ghost c = spec_bit_char(*self, rank as int, file as int);
                let set = match self.get_bit(rank, file) {
                    Ok(v) => v,
                    Err(_) => vstd::pervasive::unreached(),
                };
                if set {
                    out.append("1");
                } else {
                    out.append("0");
                }
                if file < 7 {
                    out.append(" ");
                }
                proof {
                    reveal_strlit("0");
                    reveal_strlit("1");
                    reveal_strlit(" ");
                    if file < 7 {
                        assert(out@ =~= before + seq![c, ' ']);
                        assert(out@ + spec_row_chars(*self, rank as int, file as int + 1) =~= before
                            + spec_row_chars(*self, rank as int, file as int));
                    } else {
                        assert(out@ =~= before + seq![c]);
                        assert(out@ + spec_row_chars(*self, rank as int, file as int + 1) =~= before
                            + spec_row_chars(*self, rank as int, file as int));
                    }
                }
                file = file + 1;
            }
            proof {
                assert(spec_row_chars(*self, rank as int, 8) =~= Seq::<char>::empty());
                assert(out@ =~= row_base + spec_row_chars(*self, rank as int, 0));
            }
            if rank > 0 {
                out.append("\n");
            }
            proof {
                reveal_strlit("\n");
                if rank > 0 {
                    assert(out@ + spec_grid_chars(*self, rank as int - 1) =~= row_base
                        + spec_grid_chars(*self, rank as int));
                } else {
                    assert(out@ =~= row_base + spec_grid_chars(*self, 0));
                    assert(out@ + Seq::<char>::empty() =~= out@);
                }
            }
            i = i + 1;
        }
        proof {
            assert(out@ + Seq::<char>::empty() =~= out@);
        }
        out
    }
}

} // verus!
