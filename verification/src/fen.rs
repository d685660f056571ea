use vstd::prelude::*;

verus! {

use crate::board::Board;
use crate::castling::Castling;
use crate::errors::FenParseError;
use crate::objects::{Pieces, Sides};
use crate::square::Square;

// ---------------------------------------------------------------------------
// Splitting the input on single spaces
// ---------------------------------------------------------------------------

/// The fields of `s` between single spaces: what splitting on `' '` yields.
/// There is always at least one field; adjacent or edge spaces produce empty
/// fields.
pub open spec fn split_on_spaces(s: Seq<char>) -> Seq<Seq<char>>
    decreases s.len(),
{
    if s.len() == 0 {
        seq![Seq::<char>::empty()]
    } else {
        let rest = split_on_spaces(s.drop_last());
        if s.last() == ' ' {
            rest.push(Seq::<char>::empty())
        } else {
            rest.update(rest.len() - 1, rest.last().push(s.last()))
        }
    }
}

/// Splits `s` at every space character, exactly as `split_on_spaces` reads it.
pub fn split_spaces<'a>(s: &'a str) -> (r: Vec<&'a str>)
    ensures
        r@.len() == split_on_spaces(s@).len(),
        forall|k: int| 0 <= k < r@.len() ==> #[trigger] r@[k]@ == split_on_spaces(s@)[k],
{
    let n = s.unicode_len();
    let mut r: Vec<&str> = Vec::new();
    let mut start: usize = 0;
    let mut i: usize = 0;
    proof {
        assert(split_on_spaces(s@.take(0)) =~~= r@.map_values(|t: &str| t@).push(
            s@.subrange(0, 0),
        ));
    }
    while i < n
        invariant
            start <= i <= n,
            n == s@.len(),
            split_on_spaces(s@.take(i as int)) == r@.map_values(|t: &str| t@).push(
                s@.subrange(start as int, i as int),
            ),
        decreases n - i,
    {
        let ghost prefix = s@.take(i as int);
        let ghost mapped = r@.map_values(|t: &str| t@);
        let ghost old_start = start as int;
        let c = s.get_char(i);
        proof {
            assert(s@.take(i + 1).drop_last() =~= prefix);
            assert(s@.take(i + 1).last() == s@[i as int]);
        }
        if c == ' ' {
            let field = s.substring_char(start, i);
            r.push(field);
            start = i + 1;
            proof {
                assert(r@.map_values(|t: &str| t@) =~~= mapped.push(
                    s@.subrange(old_start, i as int),
                ));
                assert(split_on_spaces(s@.take(i + 1)) =~~= r@.map_values(|t: &str| t@).push(
                    s@.subrange(i + 1, i + 1),
                ));
            }
        } else {
            proof {
                let fields = split_on_spaces(prefix);
                assert(fields.len() == mapped.len() + 1);
                assert(fields.last() == s@.subrange(old_start, i as int));
                assert(s@.subrange(old_start, i as int).push(s@[i as int]) =~= s@.subrange(
                    old_start,
                    i + 1,
                ));
                assert(split_on_spaces(s@.take(i + 1)) =~~= mapped.push(
                    s@.subrange(old_start, i + 1),
                ));
            }
        }
        i += 1;
    }
    let field = s.substring_char(start, n);
    r.push(field);
    proof {
        let ghost whole = split_on_spaces(s@);
        assert(s@.take(n as int) =~= s@);
        assert(whole =~~= r@.map_values(|t: &str| t@));
        assert forall|k: int| 0 <= k < r@.len() implies #[trigger] r@[k]@ == split_on_spaces(s@)[k]
        by {
            assert(r@.map_values(|t: &str| t@)[k] == r@[k]@);
        }
    }
    r
}

// ---------------------------------------------------------------------------
// Piece placement
// ---------------------------------------------------------------------------

/// The side and piece a placement letter denotes: lower-case letters are
/// black pieces, upper-case letters white pieces; any other character denotes
/// no piece.
pub open spec fn spec_piece_of_char(c: char) -> Option<(Sides, Pieces)> {
    if c == 'r' {
        Some((Sides::BLACK, Pieces::ROOK))
    } else if c == 'n' {
        Some((Sides::BLACK, Pieces::KNIGHT))
    } else if c == 'b' {
        Some((Sides::BLACK, Pieces::BISHOP))
    } else if c == 'q' {
        Some((Sides::BLACK, Pieces::QUEEN))
    } else if c == 'k' {
        Some((Sides::BLACK, Pieces::KING))
    } else if c == 'p' {
        Some((Sides::BLACK, Pieces::PAWN))
    } else if c == 'R' {
        Some((Sides::WHITE, Pieces::ROOK))
    } else if c == 'N' {
        Some((Sides::WHITE, Pieces::KNIGHT))
    } else if c == 'B' {
        Some((Sides::WHITE, Pieces::BISHOP))
    } else if c == 'Q' {
        Some((Sides::WHITE, Pieces::QUEEN))
    } else if c == 'K' {
        Some((Sides::WHITE, Pieces::KING))
    } else if c == 'P' {
        Some((Sides::WHITE, Pieces::PAWN))
    } else {
        None
    }
}

/// The width of a placement skip digit `1` through `8`; any other character
/// is no skip digit.
pub open spec fn spec_skip_of_char(c: char) -> Option<u8> {
    if c == '1' {
        Some(1u8)
    } else if c == '2' {
        Some(2u8)
    } else if c == '3' {
        Some(3u8)
    } else if c == '4' {
        Some(4u8)
    } else if c == '5' {
        Some(5u8)
    } else if c == '6' {
        Some(6u8)
    } else if c == '7' {
        Some(7u8)
    } else if c == '8' {
        Some(8u8)
    } else {
        None
    }
}

/// One pass of the placement grammar over the remaining characters. `group`
/// counts the `/`-separated rank groups already begun, so the characters at
/// hand fill bit rank `7 - group`; `file` is the next file within that group;
/// `b` holds the bits placed so far. The pass fails with
/// `InvalidPiecePlacement` at the first character outside the grammar, at any
/// attempt to pass file 7, and unless the input closes with exactly eight
/// groups.
pub open spec fn spec_place(s: Seq<char>, group: int, file: int, b: Board) -> Result<
    Board,
    FenParseError,
>
    decreases s.len(),
{
    if s.len() == 0 {
        if group == 7 {
            Ok(b)
        } else {
            Err(FenParseError::InvalidPiecePlacement)
        }
    } else {
        let c = s[0];
        if c == '/' {
            if group < 7 {
                spec_place(s.skip(1), group + 1, 0, b)
            } else {
                Err(FenParseError::InvalidPiecePlacement)
            }
        } else {
            match spec_piece_of_char(c) {
                Some((side, piece)) => {
                    if file <= 7 {
                        spec_place(
                            s.skip(1),
                            group,
                            file + 1,
                            b.spec_set_bit(side, piece, (7 - group) * 8 + file),
                        )
                    } else {
                        Err(FenParseError::InvalidPiecePlacement)
                    }
                },
                None => match spec_skip_of_char(c) {
                    Some(d) => {
                        if file + d <= 8 {
                            spec_place(s.skip(1), group, file + d, b)
                        } else {
                            Err(FenParseError::InvalidPiecePlacement)
                        }
                    },
                    None => Err(FenParseError::InvalidPiecePlacement),
                },
            }
        }
    }
}

/// The piece-placement field applied to `b`: eight `/`-separated groups read
/// top rank first, every denoted piece's bit set through the three bitboard
/// layers in lockstep.
pub open spec fn spec_parse_placement(s: Seq<char>, b: Board) -> Result<Board, FenParseError> {
    spec_place(s, 0, 0, b)
}

/// Reads one placement letter.
fn piece_of_char(c: char) -> (r: Option<(Sides, Pieces)>)
    ensures
        r == spec_piece_of_char(c),
{
    match c {
        'r' => Some((Sides::BLACK, Pieces::ROOK)),
        'n' => Some((Sides::BLACK, Pieces::KNIGHT)),
        'b' => Some((Sides::BLACK, Pieces::BISHOP)),
        'q' => Some((Sides::BLACK, Pieces::QUEEN)),
        'k' => Some((Sides::BLACK, Pieces::KING)),
        'p' => Some((Sides::BLACK, Pieces::PAWN)),
        'R' => Some((Sides::WHITE, Pieces::ROOK)),
        'N' => Some((Sides::WHITE, Pieces::KNIGHT)),
        'B' => Some((Sides::WHITE, Pieces::BISHOP)),
        'Q' => Some((Sides::WHITE, Pieces::QUEEN)),
        'K' => Some((Sides::WHITE, Pieces::KING)),
        'P' => Some((Sides::WHITE, Pieces::PAWN)),
        _ => None,
    }
}

/// Reads one skip digit.
fn skip_of_char(c: char) -> (r: Option<u8>)
    ensures
        r == spec_skip_of_char(c),
{
    match c {
        '1' => Some(1),
        '2' => Some(2),
        '3' => Some(3),
        '4' => Some(4),
        '5' => Some(5),
        '6' => Some(6),
        '7' => Some(7),
        '8' => Some(8),
        _ => None,
    }
}

/// Fills the board's bitboards from the first field of the position text:
/// eight `/`-separated groups, read left to right and mapped to bit ranks 7
/// down to 0, each group a run of piece letters and skip digits. The first
/// character outside the grammar, a group running past file 7, or a group
/// count other than eight fails with `InvalidPiecePlacement` and leaves the
/// board unchanged.
pub fn parse_piece_placement(board: &mut Board, placement: &str) -> (r: Result<(), FenParseError>)
    ensures
        spec_parse_placement(placement@, *old(board)) matches Ok(nb) ==> r == Ok::<
            (),
            FenParseError,
        >(()) && *final(board) == nb,
        spec_parse_placement(placement@, *old(board)) matches Err(e) ==> r == Err::<
            (),
            FenParseError,
        >(e) && *final(board) == *old(board),
{
    let n = placement.unicode_len();
    let mut b: Board = *board;
    let mut group: u8 = 0;
    let mut file: u8 = 0;
    let mut i: usize = 0;
    proof {
        assert(placement@.skip(0) =~= placement@);
    }
    while i < n
        invariant
            i <= n,
            n == placement@.len(),
            group <= 7,
            file <= 8,
            spec_place(placement@.skip(i as int), group as int, file as int, b) == spec_place(
                placement@,
                0,
                0,
                *old(board),
            ),
        decreases n - i,
    {
        let ghost suffix = placement@.skip(i as int);
        proof {
            assert(suffix[0] == placement@[i as int]);
            assert(suffix.skip(1) =~= placement@.skip(i as int + 1));
        }
        let c = placement.get_char(i);
        if c == '/' {
            if group < 7 {
                group = group + 1;
                file = 0;
            } else {
                return Err(FenParseError::InvalidPiecePlacement);
            }
        } else {
            match piece_of_char(c) {
                Some((side, piece)) => {
                    if file <= 7 {
                        let rank: u8 = 7 - group;
                        let _ = b.set_rank_file(side, piece, rank, file);
                        file = file + 1;
                    } else {
                        return Err(FenParseError::InvalidPiecePlacement);
                    }
                },
                None => {
                    match skip_of_char(c) {
                        Some(d) => {
                            if file <= 8 - d {
                                file = file + d;
                            } else {
                                return Err(FenParseError::InvalidPiecePlacement);
                            }
                        },
                        None => {
                            return Err(FenParseError::InvalidPiecePlacement);
                        },
                    }
                },
            }
        }
        i = i + 1;
    }
    proof {
        assert(placement@.skip(n as int) =~= Seq::<char>::empty());
    }
    if group == 7 {
        *board = b;
        Ok(())
    } else {
        Err(FenParseError::InvalidPiecePlacement)
    }
}

// ---------------------------------------------------------------------------
// Side to move
// ---------------------------------------------------------------------------

/// The side-to-move field: exactly `"w"` or `"b"`; anything else is
/// `InvalidSide`.
pub open spec fn spec_parse_side(s: Seq<char>) -> Result<Sides, FenParseError> {
    if s.len() == 1 && s[0] == 'w' {
        Ok(Sides::WHITE)
    } else if s.len() == 1 && s[0] == 'b' {
        Ok(Sides::BLACK)
    } else {
        Err(FenParseError::InvalidSide)
    }
}

/// Sets the side to move from the second field of the position text. Only
/// `"w"` and `"b"` are accepted; any other field fails with `InvalidSide` and
/// leaves the board unchanged.
pub fn parse_playing_side(board: &mut Board, side: &str) -> (r: Result<(), FenParseError>)
    ensures
        spec_parse_side(side@) matches Ok(stm) ==> r == Ok::<(), FenParseError>(()) && *final(
            board
        ) == (Board { side_to_move: stm, ..*old(board) }),
        spec_parse_side(side@) is Err ==> r == Err::<(), FenParseError>(FenParseError::InvalidSide)
            && *final(board) == *old(board),
{
    if side.unicode_len() == 1 {
        let c = side.get_char(0);
        if c == 'w' {
            board.side_to_move = Sides::WHITE;
            return Ok(());
        }
        if c == 'b' {
            board.side_to_move = Sides::BLACK;
            return Ok(());
        }
    }
    Err(FenParseError::InvalidSide)
}

// ---------------------------------------------------------------------------
// Castling rights
// ---------------------------------------------------------------------------

/// The castling flag a rights character grants. `-` grants nothing; any
/// character outside `-`, `K`, `Q`, `k`, `q` is not part of the field's
/// alphabet.
pub open spec fn spec_castling_flag(c: char) -> Option<u8> {
    if c == '-' {
        Some(0u8)
    } else if c == 'K' {
        Some(Castling::WHITE_00)
    } else if c == 'Q' {
        Some(Castling::WHITE_000)
    } else if c == 'k' {
        Some(Castling::BLACK_00)
    } else if c == 'q' {
        Some(Castling::BLACK_000)
    } else {
        None
    }
}

/// The rights mask the castling field denotes: the union of the flags of all
/// its characters, or `InvalidCastlingRights` if any character lies outside
/// the field's alphabet. Order and repetition carry no meaning.
pub open spec fn spec_castling_mask(s: Seq<char>) -> Result<u8, FenParseError>
    decreases s.len(),
{
    if s.len() == 0 {
        Ok(0u8)
    } else {
        match spec_castling_flag(s[0]) {
            Some(f) => match spec_castling_mask(s.skip(1)) {
                Ok(m) => Ok(f | m),
                Err(e) => Err(e),
            },
            None => Err(FenParseError::InvalidCastlingRights),
        }
    }
}

/// The castling-rights field as a rights value.
pub open spec fn spec_parse_castling(s: Seq<char>) -> Result<Castling, FenParseError> {
    match spec_castling_mask(s) {
        Ok(m) => Ok(Castling { rights: m }),
        Err(e) => Err(e),
    }
}

/// Associativity and unit facts of bytewise `|`, used to fold flag unions in
/// either direction.
proof fn lemma_u8_or_basics()
    by (bit_vector)
    ensures
        forall|a: u8, b: u8, c: u8| #[trigger] ((a | b) | c) == (a | (b | c)),
        forall|a: u8| #[trigger] (a | 0) == a,
        forall|a: u8| #[trigger] (0 | a) == a,
{
}

/// Sets the castling rights from the third field of the position text: any
/// sequence over `-`, `K`, `Q`, `k`, `q`, each letter granting its flag. A
/// character outside that alphabet fails with `InvalidCastlingRights` and
/// leaves the board unchanged.
pub fn parse_castling_rights(board: &mut Board, castling_rights: &str) -> (r: Result<
    (),
    FenParseError,
>)
    ensures
        spec_parse_castling(castling_rights@) matches Ok(cr) ==> r == Ok::<(), FenParseError>(())
            && *final(board) == (Board { castling_rights: cr, ..*old(board) }),
        spec_parse_castling(castling_rights@) matches Err(e) ==> r == Err::<(), FenParseError>(
            e,
        ) && *final(board) == *old(board),
{
    proof {
        lemma_u8_or_basics();
        assert(castling_rights@.skip(0) =~= castling_rights@);
    }
    let n = castling_rights.unicode_len();
    let mut rights = Castling::none();
    let mut i: usize = 0;
    while i < n
        invariant
            i <= n,
            n == castling_rights@.len(),
            (match spec_castling_mask(castling_rights@.skip(i as int)) {
                Ok(m) => spec_castling_mask(castling_rights@) == Ok::<u8, FenParseError>(
                    rights.rights | m,
                ),
                Err(e) => spec_castling_mask(castling_rights@) == Err::<u8, FenParseError>(e),
            }),
        decreases n - i,
    {
        let ghost suffix = castling_rights@.skip(i as int);
        proof {
            lemma_u8_or_basics();
            assert(suffix[0] == castling_rights@[i as int]);
            assert(suffix.skip(1) =~= castling_rights@.skip(i as int + 1));
        }
        let c = castling_rights.get_char(i);
        match c {
            '-' => {},
            'K' => rights.add_kingside_white(),
            'Q' => rights.add_queenside_white(),
            'k' => rights.add_kingside_black(),
            'q' => rights.add_queenside_black(),
            _ => {
                return Err(FenParseError::InvalidCastlingRights);
            },
        }
        i += 1;
    }
    proof {
        lemma_u8_or_basics();
        assert(castling_rights@.skip(n as int) =~= Seq::<char>::empty());
    }
    board.castling_rights = rights;
    Ok(())
}

// ---------------------------------------------------------------------------
// En-passant target
// ---------------------------------------------------------------------------

/// The en-passant field: exactly `"-"` for no target, else a two-character
/// algebraic square name; any other text is `InvalidEnPassant`.
pub open spec fn spec_parse_en_passant(s: Seq<char>) -> Result<Option<Square>, FenParseError> {
    if s.len() == 1 && s[0] == '-' {
        Ok(None)
    } else {
        match Square::spec_from_algebraic(s) {
            Ok(sq) => Ok(Some(sq)),
            Err(_) => Err(FenParseError::InvalidEnPassant),
        }
    }
}

/// Sets the en-passant target square from the fourth field of the position
/// text: `-` for none, else a two-character algebraic square. Text that names
/// no square fails with `InvalidEnPassant` and leaves the board unchanged.
pub fn parse_en_passant(board: &mut Board, en_passant: &str) -> (r: Result<(), FenParseError>)
    ensures
        spec_parse_en_passant(en_passant@) matches Ok(ep) ==> r == Ok::<(), FenParseError>(())
            && *final(board) == (Board { en_passant_square: ep, ..*old(board) }),
        spec_parse_en_passant(en_passant@) is Err ==> r == Err::<(), FenParseError>(
            FenParseError::InvalidEnPassant,
        ) && *final(board) == *old(board),
{
    if en_passant.unicode_len() == 1 && en_passant.get_char(0) == '-' {
        board.en_passant_square = None;
        return Ok(());
    }
    match Square::from_square(en_passant) {
        Ok(sq) => {
            board.en_passant_square = Some(sq);
            Ok(())
        },
        Err(_) => Err(FenParseError::InvalidEnPassant),
    }
}

// ---------------------------------------------------------------------------
// Move clocks
// ---------------------------------------------------------------------------

/// The value of a decimal digit character, or `None` for any other character.
pub open spec fn spec_digit_of_char(c: char) -> Option<u8> {
    if c == '0' {
        Some(0u8)
    } else if c == '1' {
        Some(1u8)
    } else if c == '2' {
        Some(2u8)
    } else if c == '3' {
        Some(3u8)
    } else if c == '4' {
        Some(4u8)
    } else if c == '5' {
        Some(5u8)
    } else if c == '6' {
        Some(6u8)
    } else if c == '7' {
        Some(7u8)
    } else if c == '8' {
        Some(8u8)
    } else if c == '9' {
        Some(9u8)
    } else {
        None
    }
}

/// Decimal digits folded left to right onto `acc`. A non-digit character, or
/// any prefix whose value exceeds `max`, fails with `InvalidMoveClock`.
pub open spec fn spec_fold_digits(s: Seq<char>, acc: int, max: int) -> Result<int, FenParseError>
    decreases s.len(),
{
    if s.len() == 0 {
        Ok(acc)
    } else {
        match spec_digit_of_char(s[0]) {
            Some(d) => {
                let v = acc * 10 + d;
                if v <= max {
                    spec_fold_digits(s.skip(1), v, max)
                } else {
                    Err(FenParseError::InvalidMoveClock)
                }
            },
            None => Err(FenParseError::InvalidMoveClock),
        }
    }
}

/// A clock field: an optional leading `+`, then at least one decimal digit,
/// the value at most `max`.
pub open spec fn spec_parse_clock(s: Seq<char>, max: int) -> Result<int, FenParseError> {
    let digits = if s.len() > 0 && s[0] == '+' {
        s.skip(1)
    } else {
        s
    };
    if digits.len() == 0 {
        Err(FenParseError::InvalidMoveClock)
    } else {
        spec_fold_digits(digits, 0, max)
    }
}

/// The halfmove-clock field: a non-negative number fitting one byte.
pub open spec fn spec_parse_halfmove(s: Seq<char>) -> Result<u8, FenParseError> {
    match spec_parse_clock(s, 255) {
        Ok(v) => Ok(v as u8),
        Err(e) => Err(e),
    }
}

/// The fullmove-number field: a non-negative number fitting two bytes.
pub open spec fn spec_parse_fullmove(s: Seq<char>) -> Result<u16, FenParseError> {
    match spec_parse_clock(s, 65535) {
        Ok(v) => Ok(v as u16),
        Err(e) => Err(e),
    }
}

/// Reads a clock field of at most `max`, exactly as `spec_parse_clock` does.
fn parse_clock(s: &str, max: u16) -> (r: Result<u16, FenParseError>)
    ensures
        spec_parse_clock(s@, max as int) matches Ok(v) ==> r == Ok::<u16, FenParseError>(
            v as u16,
        ) && 0 <= v <= max,
        spec_parse_clock(s@, max as int) matches Err(e) ==> r == Err::<u16, FenParseError>(e),
{
    let n = s.unicode_len();
    let mut i: usize = 0;
    if n > 0 && s.get_char(0) == '+' {
        i = 1;
    }
    if i == n {
        return Err(FenParseError::InvalidMoveClock);
    }
    let ghost digits: Seq<char> = s@.skip(i as int);
    proof {
        assert(s@.skip(0) =~= s@);
    }
    let mut acc: u16 = 0;
    while i < n
        invariant
            i <= n,
            n == s@.len(),
            acc <= max,
            spec_fold_digits(s@.skip(i as int), acc as int, max as int) == spec_fold_digits(
                digits,
                0,
                max as int,
            ),
            spec_parse_clock(s@, max as int) == spec_fold_digits(digits, 0, max as int),
        decreases n - i,
    {
        let ghost suffix = s@.skip(i as int);
        proof {
            assert(suffix[0] == s@[i as int]);
            assert(suffix.skip(1) =~= s@.skip(i as int + 1));
        }
        let c = s.get_char(i);
        let d: u16 = match c {
            '0' => 0,
            '1' => 1,
            '2' => 2,
            '3' => 3,
            '4' => 4,
            '5' => 5,
            '6' => 6,
            '7' => 7,
            '8' => 8,
            '9' => 9,
            _ => {
                return Err(FenParseError::InvalidMoveClock);
            },
        };
        let next: u32 = acc as u32 * 10 + d as u32;
        if next > max as u32 {
            return Err(FenParseError::InvalidMoveClock);
        }
        acc = next as u16;
        i += 1;
    }
    proof {
        assert(s@.skip(n as int) =~= Seq::<char>::empty());
    }
    Ok(acc)
}

/// Sets the halfmove clock and fullmove number from the fifth and sixth
/// fields of the position text: non-negative numbers fitting one and two
/// bytes. Other text fails with `InvalidMoveClock` and leaves the board
/// unchanged.
pub fn parse_move_clocks(board: &mut Board, halfmove: &str, fullmove: &str) -> (r: Result<
    (),
    FenParseError,
>)
    ensures
        (match (spec_parse_halfmove(halfmove@), spec_parse_fullmove(fullmove@)) {
            (Ok(hm), Ok(fm)) => r == Ok::<(), FenParseError>(()) && *final(board) == (Board {
                halfmove_clock: hm,
                fullmove_clock: fm,
                ..*old(board)
            }),
            (Err(e), _) => r == Err::<(), FenParseError>(e) && *final(board) == *old(board),
            (Ok(_), Err(e)) => r == Err::<(), FenParseError>(e) && *final(board) == *old(board),
        }),
{
    let hm = match parse_clock(halfmove, 255) {
        Ok(v) => v as u8,
        Err(e) => {
            return Err(e);
        },
    };
    let fm = match parse_clock(fullmove, 65535) {
        Ok(v) => v,
        Err(e) => {
            return Err(e);
        },
    };
    board.halfmove_clock = hm;
    board.fullmove_clock = fm;
    Ok(())
}

// ---------------------------------------------------------------------------
// The whole grammar
// ---------------------------------------------------------------------------

/// The whole six-field grammar: the input split on single spaces must give
/// exactly six fields, which are applied in fixed order to the empty board;
/// the first failure decides the error and no board is produced.
pub open spec fn spec_from_fen(s: Seq<char>) -> Result<Board, FenParseError> {
    let fields = split_on_spaces(s);
    if fields.len() != 6 {
        Err(FenParseError::InvalidLength)
    } else {
        match spec_parse_placement(fields[0], Board::spec_empty()) {
            Err(e) => Err(e),
            Ok(b) => match spec_parse_side(fields[1]) {
                Err(e) => Err(e),
                Ok(stm) => match spec_parse_castling(fields[2]) {
                    Err(e) => Err(e),
                    Ok(cr) => match spec_parse_en_passant(fields[3]) {
                        Err(e) => Err(e),
                        Ok(ep) => match spec_parse_halfmove(fields[4]) {
                            Err(e) => Err(e),
                            Ok(hm) => match spec_parse_fullmove(fields[5]) {
                                Err(e) => Err(e),
                                Ok(fm) => Ok(
                                    Board {
                                        side_to_move: stm,
                                        castling_rights: cr,
                                        en_passant_square: ep,
                                        halfmove_clock: hm,
                                        fullmove_clock: fm,
                                        ..b
                                    },
                                ),
                            },
                        },
                    },
                },
            },
        }
    }
}

/// Whatever board a placement pass succeeds with keeps the aggregate
/// invariant it started with: every step sets its bit through the three
/// layers in lockstep.
pub proof fn lemma_place_preserves_wf(s: Seq<char>, group: int, file: int, b: Board)
    requires
        b.wf(),
    ensures
        (spec_place(s, group, file, b) matches Ok(nb) ==> nb.wf()),
    decreases s.len(),
{
    if s.len() == 0 {
    } else {
        let c = s[0];
        if c == '/' {
            if group < 7 {
                lemma_place_preserves_wf(s.skip(1), group + 1, 0, b);
            }
        } else {
            match spec_piece_of_char(c) {
                Some((side, piece)) => {
                    if file <= 7 {
                        let nb = b.spec_set_bit(side, piece, (7 - group) * 8 + file);
                        b.lemma_set_bit_preserves_wf(side, piece, (7 - group) * 8 + file);
                        lemma_place_preserves_wf(s.skip(1), group, file + 1, nb);
                    }
                },
                None => {
                    match spec_skip_of_char(c) {
                        Some(d) => {
                            if file + d <= 8 {
                                lemma_place_preserves_wf(s.skip(1), group, file + d, b);
                            }
                        },
                        None => {},
                    }
                },
            }
        }
    }
}

/// The empty board keeps the aggregate invariant, so every decoded board does.
pub proof fn lemma_decoded_board_wf(s: Seq<char>)
    ensures
        (spec_from_fen(s) matches Ok(b) ==> b.wf()),
{
    let e = Board::spec_empty();
    assert(0u64 | 0u64 | 0u64 | 0u64 | 0u64 | 0u64 == 0u64) by (bit_vector);
    assert(0u64 | 0u64 == 0u64) by (bit_vector);
    assert(e.wf());
    let fields = split_on_spaces(s);
    if fields.len() == 6 {
        lemma_place_preserves_wf(fields[0], 0, 0, e);
    }
}

/// Decoding is deterministic: `Board::from_fen` promises its result equals
/// `spec_from_fen` of the input, so any two results drawn from the same text
/// are bit-for-bit identical.
pub proof fn lemma_decode_deterministic(
    s: Seq<char>,
    r1: Result<Board, FenParseError>,
    r2: Result<Board, FenParseError>,
)
    requires
        r1 == spec_from_fen(s),
        r2 == spec_from_fen(s),
    ensures
        r1 == r2,
{
}

// ---------------------------------------------------------------------------
// Decode-level failure laws
// ---------------------------------------------------------------------------

/// The structural check comes first: any input that does not split into
/// exactly six fields fails with `InvalidLength`, whatever the fields hold.
pub proof fn lemma_wrong_field_count_fails(s: Seq<char>)
    requires
        split_on_spaces(s).len() != 6,
    ensures
        spec_from_fen(s) == Err::<Board, FenParseError>(FenParseError::InvalidLength),
{
}

/// With six fields and a placement field the grammar accepts, a side-to-move
/// field other than `w` or `b` makes the whole decode fail with
/// `InvalidSide`.
pub proof fn lemma_bad_side_fails(s: Seq<char>)
    requires
        split_on_spaces(s).len() == 6,
        spec_parse_placement(split_on_spaces(s)[0], Board::spec_empty()) is Ok,
        split_on_spaces(s)[1] != seq!['w'],
        split_on_spaces(s)[1] != seq!['b'],
    ensures
        spec_from_fen(s) == Err::<Board, FenParseError>(FenParseError::InvalidSide),
{
    let f = split_on_spaces(s)[1];
    if f.len() == 1 && f[0] == 'w' {
        assert(f =~= seq!['w']);
    }
    if f.len() == 1 && f[0] == 'b' {
        assert(f =~= seq!['b']);
    }
}

/// A castling field with any character outside `-`, `K`, `Q`, `k`, `q` never
/// denotes a rights mask.
proof fn lemma_castling_bad_char(f: Seq<char>, k: int)
    requires
        0 <= k < f.len(),
        spec_castling_flag(f[k]) is None,
    ensures
        spec_castling_mask(f) == Err::<u8, FenParseError>(FenParseError::InvalidCastlingRights),
    decreases k,
{
    if k > 0 && spec_castling_flag(f[0]) is Some {
        assert(f.skip(1)[k - 1] == f[k]);
        lemma_castling_bad_char(f.skip(1), k - 1);
    }
}

/// With six fields, an accepted placement and an accepted side field, a
/// castling field holding any character outside `-`, `K`, `Q`, `k`, `q`
/// makes the whole decode fail with `InvalidCastlingRights`.
pub proof fn lemma_bad_castling_char_fails(s: Seq<char>, k: int)
    requires
        split_on_spaces(s).len() == 6,
        spec_parse_placement(split_on_spaces(s)[0], Board::spec_empty()) is Ok,
        spec_parse_side(split_on_spaces(s)[1]) is Ok,
        0 <= k < split_on_spaces(s)[2].len(),
        spec_castling_flag(split_on_spaces(s)[2][k]) is None,
    ensures
        spec_from_fen(s) == Err::<Board, FenParseError>(FenParseError::InvalidCastlingRights),
{
    lemma_castling_bad_char(split_on_spaces(s)[2], k);
}

} // verus!
