use vstd::prelude::*;

verus! {

use crate::errors::SquareError;

/// A validated board location. The variant at linear index `rank * 8 + file`
/// names the square on that rank (digit, counted from one) and file (letter,
/// `A` through `H`), so `A1` has index 0 and `H8` has index 63. Absence of a
/// square (an empty en-passant target) is expressed with `Option<Square>`.
#[derive(Debug, Clone, Copy, PartialEq, Eq)]
pub enum Square {
    A1, B1, C1, D1, E1, F1, G1, H1,
    A2, B2, C2, D2, E2, F2, G2, H2,
    A3, B3, C3, D3, E3, F3, G3, H3,
    A4, B4, C4, D4, E4, F4, G4, H4,
    A5, B5, C5, D5, E5, F5, G5, H5,
    A6, B6, C6, D6, E6, F6, G6, H6,
    A7, B7, C7, D7, E7, F7, G7, H7,
    A8, B8, C8, D8, E8, F8, G8, H8,
}

/// The square whose linear index is `i`, for `i` in `0..64`.
pub open spec fn spec_square_of_index(i: int) -> Square {
    if i == 0 {
        Square::A1
    } else if i == 1 {
        Square::B1
    } else if i == 2 {
        Square::C1
    } else if i == 3 {
        Square::D1
    } else if i == 4 {
        Square::E1
    } else if i == 5 {
        Square::F1
    } else if i == 6 {
        Square::G1
    } else if i == 7 {
        Square::H1
    } else if i == 8 {
        Square::A2
    } else if i == 9 {
        Square::B2
    } else if i == 10 {
        Square::C2
    } else if i == 11 {
        Square::D2
    } else if i == 12 {
        Square::E2
    } else if i == 13 {
        Square::F2
    } else if i == 14 {
        Square::G2
    } else if i == 15 {
        Square::H2
    } else if i == 16 {
        Square::A3
    } else if i == 17 {
        Square::B3
    } else if i == 18 {
        Square::C3
    } else if i == 19 {
        Square::D3
    } else if i == 20 {
        Square::E3
    } else if i == 21 {
        Square::F3
    } else if i == 22 {
        Square::G3
    } else if i == 23 {
        Square::H3
    } else if i == 24 {
        Square::A4
    } else if i == 25 {
        Square::B4
    } else if i == 26 {
        Square::C4
    } else if i == 27 {
        Square::D4
    } else if i == 28 {
        Square::E4
    } else if i == 29 {
        Square::F4
    } else if i == 30 {
        Square::G4
    } else if i == 31 {
        Square::H4
    } else if i == 32 {
        Square::A5
    } else if i == 33 {
        Square::B5
    } else if i == 34 {
        Square::C5
    } else if i == 35 {
        Square::D5
    } else if i == 36 {
        Square::E5
    } else if i == 37 {
        Square::F5
    } else if i == 38 {
        Square::G5
    } else if i == 39 {
        Square::H5
    } else if i == 40 {
        Square::A6
    } else if i == 41 {
        Square::B6
    } else if i == 42 {
        Square::C6
    } else if i == 43 {
        Square::D6
    } else if i == 44 {
        Square::E6
    } else if i == 45 {
        Square::F6
    } else if i == 46 {
        Square::G6
    } else if i == 47 {
        Square::H6
    } else if i == 48 {
        Square::A7
    } else if i == 49 {
        Square::B7
    } else if i == 50 {
        Square::C7
    } else if i == 51 {
        Square::D7
    } else if i == 52 {
        Square::E7
    } else if i == 53 {
        Square::F7
    } else if i == 54 {
        Square::G7
    } else if i == 55 {
        Square::H7
    } else if i == 56 {
        Square::A8
    } else if i == 57 {
        Square::B8
    } else if i == 58 {
        Square::C8
    } else if i == 59 {
        Square::D8
    } else if i == 60 {
        Square::E8
    } else if i == 61 {
        Square::F8
    } else if i == 62 {
        Square::G8
    } else {
        Square::H8
    }
}

impl Square {
    /// The linear index `rank * 8 + file` of this square.
    pub open spec fn linear_index(self) -> int {
        match self {
            Square::A1 => 0,
            Square::B1 => 1,
            Square::C1 => 2,
            Square::D1 => 3,
            Square::E1 => 4,
            Square::F1 => 5,
            Square::G1 => 6,
            Square::H1 => 7,
            Square::A2 => 8,
            Square::B2 => 9,
            Square::C2 => 10,
            Square::D2 => 11,
            Square::E2 => 12,
            Square::F2 => 13,
            Square::G2 => 14,
            Square::H2 => 15,
            Square::A3 => 16,
            Square::B3 => 17,
            Square::C3 => 18,
            Square::D3 => 19,
            Square::E3 => 20,
            Square::F3 => 21,
            Square::G3 => 22,
            Square::H3 => 23,
            Square::A4 => 24,
            Square::B4 => 25,
            Square::C4 => 26,
            Square::D4 => 27,
            Square::E4 => 28,
            Square::F4 => 29,
            Square::G4 => 30,
            Square::H4 => 31,
            Square::A5 => 32,
            Square::B5 => 33,
            Square::C5 => 34,
            Square::D5 => 35,
            Square::E5 => 36,
            Square::F5 => 37,
            Square::G5 => 38,
            Square::H5 => 39,
            Square::A6 => 40,
            Square::B6 => 41,
            Square::C6 => 42,
            Square::D6 => 43,
            Square::E6 => 44,
            Square::F6 => 45,
            Square::G6 => 46,
            Square::H6 => 47,
            Square::A7 => 48,
            Square::B7 => 49,
            Square::C7 => 50,
            Square::D7 => 51,
            Square::E7 => 52,
            Square::F7 => 53,
            Square::G7 => 54,
            Square::H7 => 55,
            Square::A8 => 56,
            Square::B8 => 57,
            Square::C8 => 58,
            Square::D8 => 59,
            Square::E8 => 60,
            Square::F8 => 61,
            Square::G8 => 62,
            Square::H8 => 63,
        }
    }
}


impl Square {
    /// The square at `rank` and `file` when both lie in `0..=7`, and
    /// `InvalidFileRank` otherwise.
    pub open spec fn spec_from_coords(rank: int, file: int) -> Result<Square, SquareError> {
        if 0 <= rank <= 7 && 0 <= file <= 7 {
            Ok(spec_square_of_index(rank * 8 + file))
        } else {
            Err(SquareError::InvalidFileRank)
        }
    }

    /// Builds the square at `rank` and `file`, both counted from zero;
    /// coordinates outside `0..=7` are rejected with `InvalidFileRank`.
    pub fn from_coords(rank: u8, file: u8) -> (r: Result<Self, SquareError>)
        ensures
            r == Self::spec_from_coords(rank as int, file as int),
            rank <= 7 && file <= 7 ==> (r matches Ok(sq) && sq.linear_index() == rank as int * 8
                + file as int),
            rank > 7 || file > 7 ==> r == Err::<Square, SquareError>(SquareError::InvalidFileRank),
    {
        if rank > 7 || file > 7 {
            return Err(SquareError::InvalidFileRank);
        }
        let pos: u8 = rank * 8 + file;
        proof {
            lemma_square_index_round_trip(pos as int);
        }
        match pos {
            0 => Ok(Square::A1),
            1 => Ok(Square::B1),
            2 => Ok(Square::C1),
            3 => Ok(Square::D1),
            4 => Ok(Square::E1),
            5 => Ok(Square::F1),
            6 => Ok(Square::G1),
            7 => Ok(Square::H1),
            8 => Ok(Square::A2),
            9 => Ok(Square::B2),
            10 => Ok(Square::C2),
            11 => Ok(Square::D2),
            12 => Ok(Square::E2),
            13 => Ok(Square::F2),
            14 => Ok(Square::G2),
            15 => Ok(Square::H2),
            16 => Ok(Square::A3),
            17 => Ok(Square::B3),
            18 => Ok(Square::C3),
            19 => Ok(Square::D3),
            20 => Ok(Square::E3),
            21 => Ok(Square::F3),
            22 => Ok(Square::G3),
            23 => Ok(Square::H3),
            24 => Ok(Square::A4),
            25 => Ok(Square::B4),
            26 => Ok(Square::C4),
            27 => Ok(Square::D4),
            28 => Ok(Square::E4),
            29 => Ok(Square::F4),
            30 => Ok(Square::G4),
            31 => Ok(Square::H4),
            32 => Ok(Square::A5),
            33 => Ok(Square::B5),
            34 => Ok(Square::C5),
            35 => Ok(Square::D5),
            36 => Ok(Square::E5),
            37 => Ok(Square::F5),
            38 => Ok(Square::G5),
            39 => Ok(Square::H5),
            40 => Ok(Square::A6),
            41 => Ok(Square::B6),
            42 => Ok(Square::C6),
            43 => Ok(Square::D6),
            44 => Ok(Square::E6),
            45 => Ok(Square::F6),
            46 => Ok(Square::G6),
            47 => Ok(Square::H6),
            48 => Ok(Square::A7),
            49 => Ok(Square::B7),
            50 => Ok(Square::C7),
            51 => Ok(Square::D7),
            52 => Ok(Square::E7),
            53 => Ok(Square::F7),
            54 => Ok(Square::G7),
            55 => Ok(Square::H7),
            56 => Ok(Square::A8),
            57 => Ok(Square::B8),
            58 => Ok(Square::C8),
            59 => Ok(Square::D8),
            60 => Ok(Square::E8),
            61 => Ok(Square::F8),
            62 => Ok(Square::G8),
            63 => Ok(Square::H8),
            _ => vstd::pervasive::unreached(),
        }
    }

    /// The `(rank, file)` pair of this square, each in `0..=7`: the inverse
    /// of `from_coords`.
    pub fn to_coords(&self) -> (r: (u8, u8))
        ensures
            r.0 <= 7,
            r.1 <= 7,
            r.0 as int == self.linear_index() / 8,
            r.1 as int == self.linear_index() % 8,
            r.0 as int * 8 + r.1 as int == self.linear_index(),
    {
        match self {
            Square::A1 => (0, 0),
            Square::B1 => (0, 1),
            Square::C1 => (0, 2),
            Square::D1 => (0, 3),
            Square::E1 => (0, 4),
            Square::F1 => (0, 5),
            Square::G1 => (0, 6),
            Square::H1 => (0, 7),
            Square::A2 => (1, 0),
            Square::B2 => (1, 1),
            Square::C2 => (1, 2),
            Square::D2 => (1, 3),
            Square::E2 => (1, 4),
            Square::F2 => (1, 5),
            Square::G2 => (1, 6),
            Square::H2 => (1, 7),
            Square::A3 => (2, 0),
            Square::B3 => (2, 1),
            Square::C3 => (2, 2),
            Square::D3 => (2, 3),
            Square::E3 => (2, 4),
            Square::F3 => (2, 5),
            Square::G3 => (2, 6),
            Square::H3 => (2, 7),
            Square::A4 => (3, 0),
            Square::B4 => (3, 1),
            Square::C4 => (3, 2),
            Square::D4 => (3, 3),
            Square::E4 => (3, 4),
            Square::F4 => (3, 5),
            Square::G4 => (3, 6),
            Square::H4 => (3, 7),
            Square::A5 => (4, 0),
            Square::B5 => (4, 1),
            Square::C5 => (4, 2),
            Square::D5 => (4, 3),
            Square::E5 => (4, 4),
            Square::F5 => (4, 5),
            Square::G5 => (4, 6),
            Square::H5 => (4, 7),
            Square::A6 => (5, 0),
            Square::B6 => (5, 1),
            Square::C6 => (5, 2),
            Square::D6 => (5, 3),
            Square::E6 => (5, 4),
            Square::F6 => (5, 5),
            Square::G6 => (5, 6),
            Square::H6 => (5, 7),
            Square::A7 => (6, 0),
            Square::B7 => (6, 1),
            Square::C7 => (6, 2),
            Square::D7 => (6, 3),
            Square::E7 => (6, 4),
            Square::F7 => (6, 5),
            Square::G7 => (6, 6),
            Square::H7 => (6, 7),
            Square::A8 => (7, 0),
            Square::B8 => (7, 1),
            Square::C8 => (7, 2),
            Square::D8 => (7, 3),
            Square::E8 => (7, 4),
            Square::F8 => (7, 5),
            Square::G8 => (7, 6),
            Square::H8 => (7, 7),
        }
    }
}

/// Every linear index in `0..64` is recovered by `linear_index` from the
/// square `spec_square_of_index` builds for it.
pub proof fn lemma_square_index_round_trip(i: int)
    requires
        0 <= i < 64,
    ensures
        spec_square_of_index(i).linear_index() == i,
{
}

/// Coordinate round trip: for every linear square index, building a square
/// from `(index / 8, index % 8)` succeeds and recovers exactly that index.
pub proof fn lemma_coords_round_trip(i: int)
    requires
        0 <= i < 64,
    ensures
        (Square::spec_from_coords(i / 8, i % 8) matches Ok(sq) && sq.linear_index() == i),
{
    lemma_square_index_round_trip(i);
}


/// The file index a letter denotes: `A`/`a` is 0 through `H`/`h` is 7,
/// case-insensitive; any other character denotes no file.
pub open spec fn spec_file_of_char(c: char) -> Option<u8> {
    if c == 'A' || c == 'a' {
        Some(0u8)
    } else if c == 'B' || c == 'b' {
        Some(1u8)
    } else if c == 'C' || c == 'c' {
        Some(2u8)
    } else if c == 'D' || c == 'd' {
        Some(3u8)
    } else if c == 'E' || c == 'e' {
        Some(4u8)
    } else if c == 'F' || c == 'f' {
        Some(5u8)
    } else if c == 'G' || c == 'g' {
        Some(6u8)
    } else if c == 'H' || c == 'h' {
        Some(7u8)
    } else {
        None
    }
}

/// The rank index a digit denotes: `1` is 0 through `8` is 7; any other
/// character denotes no rank.
pub open spec fn spec_rank_of_char(c: char) -> Option<u8> {
    if c == '1' {
        Some(0u8)
    } else if c == '2' {
        Some(1u8)
    } else if c == '3' {
        Some(2u8)
    } else if c == '4' {
        Some(3u8)
    } else if c == '5' {
        Some(4u8)
    } else if c == '6' {
        Some(5u8)
    } else if c == '7' {
        Some(6u8)
    } else if c == '8' {
        Some(7u8)
    } else {
        None
    }
}

impl Square {
    /// Algebraic text as a square: exactly two characters, a file letter
    /// (case-insensitive) followed by a rank digit; anything else is
    /// `InvalidSquare`.
    pub open spec fn spec_from_algebraic(s: Seq<char>) -> Result<Square, SquareError> {
        if s.len() != 2 {
            Err(SquareError::InvalidSquare)
        } else {
            match (spec_file_of_char(s[0]), spec_rank_of_char(s[1])) {
                (Some(file), Some(rank)) => Ok(
                    spec_square_of_index(rank as int * 8 + file as int),
                ),
                _ => Err(SquareError::InvalidSquare),
            }
        }
    }

    /// Parses a two-character algebraic square name, such as `e3`: a file
    /// letter `A` through `H` (either case) followed by a rank digit `1`
    /// through `8`. Any other length or character fails with `InvalidSquare`.
    pub fn from_square(square: &str) -> (r: Result<Self, SquareError>)
        ensures
            r == Self::spec_from_algebraic(square@),
    {
        if square.unicode_len() != 2 {
            return Err(SquareError::InvalidSquare);
        }
        let file_char = square.get_char(0);
        let rank_char = square.get_char(1);
        let file: u8 = match file_char {
            'A' | 'a' => 0,
            'B' | 'b' => 1,
            'C' | 'c' => 2,
            'D' | 'd' => 3,
            'E' | 'e' => 4,
            'F' | 'f' => 5,
            'G' | 'g' => 6,
            'H' | 'h' => 7,
            _ => {
                return Err(SquareError::InvalidSquare);
            },
        };
        let rank: u8 = match rank_char {
            '1' => 0,
            '2' => 1,
            '3' => 2,
            '4' => 3,
            '5' => 4,
            '6' => 5,
            '7' => 6,
            '8' => 7,
            _ => {
                return Err(SquareError::InvalidSquare);
            },
        };
        match Self::from_coords(rank, file) {
            Ok(sq) => Ok(sq),
            Err(_) => vstd::pervasive::unreached(),
        }
    }
}

} // verus!
