use engine::board::Board;
use engine::errors::FenParseError;
use engine::objects::{Pieces, Sides};
use engine::square::Square;

const START: &str = "rnbqkbnr/pppppppp/8/8/8/8/PPPPPPPP/RNBQKBNR w KQkq - 0 1";

#[test]
fn test_default_fen() {
    let board = Board::from_fen(START);
    assert_eq!(board.is_ok(), true);

    let board = board.unwrap();
    println!("{:#?}", board);
}

#[test]
fn start_position_piece_counts() {
    let b = Board::from_fen(START).unwrap();

    assert_eq!(b.piece_bb.white.pawn.0.count_ones(), 8);
    assert_eq!(b.piece_bb.white.knight.0.count_ones(), 2);
    assert_eq!(b.piece_bb.white.bishop.0.count_ones(), 2);
    assert_eq!(b.piece_bb.white.rook.0.count_ones(), 2);
    assert_eq!(b.piece_bb.white.queen.0.count_ones(), 1);
    assert_eq!(b.piece_bb.white.king.0.count_ones(), 1);
    assert_eq!(b.piece_bb.black.pawn.0.count_ones(), 8);
    assert_eq!(b.piece_bb.black.knight.0.count_ones(), 2);
    assert_eq!(b.piece_bb.black.bishop.0.count_ones(), 2);
    assert_eq!(b.piece_bb.black.rook.0.count_ones(), 2);
    assert_eq!(b.piece_bb.black.queen.0.count_ones(), 1);
    assert_eq!(b.piece_bb.black.king.0.count_ones(), 1);
    assert_eq!(b.occupied_bb.0.count_ones(), 32);

    assert!(b.castling_rights.has_kingside_white());
    assert!(b.castling_rights.has_queenside_white());
    assert!(b.castling_rights.has_kingside_black());
    assert!(b.castling_rights.has_queenside_black());
    assert_eq!(b.en_passant_square, None);
    assert_eq!(b.halfmove_clock, 0);
    assert_eq!(b.fullmove_clock, 1);
    assert_eq!(b.side_to_move, Sides::WHITE);
}

#[test]
fn start_position_exact_bitboards() {
    let b = Board::from_fen(START).unwrap();

    // White's first textual group is the last one, so it lands on bit rank 0.
    assert_eq!(b.piece_bb.white.rook.0, 0x81);
    assert_eq!(b.piece_bb.white.knight.0, 0x42);
    assert_eq!(b.piece_bb.white.bishop.0, 0x24);
    assert_eq!(b.piece_bb.white.queen.0, 0x08);
    assert_eq!(b.piece_bb.white.king.0, 0x10);
    assert_eq!(b.piece_bb.white.pawn.0, 0xFF00);

    assert_eq!(b.piece_bb.black.rook.0, 0x8100_0000_0000_0000);
    assert_eq!(b.piece_bb.black.knight.0, 0x4200_0000_0000_0000);
    assert_eq!(b.piece_bb.black.bishop.0, 0x2400_0000_0000_0000);
    assert_eq!(b.piece_bb.black.queen.0, 0x0800_0000_0000_0000);
    assert_eq!(b.piece_bb.black.king.0, 0x1000_0000_0000_0000);
    assert_eq!(b.piece_bb.black.pawn.0, 0x00FF_0000_0000_0000);

    assert_eq!(b.color_bb.white.0, 0xFFFF);
    assert_eq!(b.color_bb.black.0, 0xFFFF_0000_0000_0000);
    assert_eq!(b.occupied_bb.0, 0xFFFF_0000_0000_FFFF);
}

#[test]
fn decode_is_deterministic() {
    let text = "rnbqkbnr/pp1ppppp/8/2p5/4P3/8/PPPP1PPP/RNBQKBNR w KQkq c6 0 2";
    let a = Board::from_fen(text).unwrap();
    let b = Board::from_fen(text).unwrap();
    assert_eq!(a, b);
}

#[test]
fn wrong_field_count_is_invalid_length() {
    assert_eq!(Board::from_fen("").unwrap_err(), FenParseError::InvalidLength);
    assert_eq!(Board::from_fen("w").unwrap_err(), FenParseError::InvalidLength);
    assert_eq!(
        Board::from_fen("8/8/8/8/8/8/8/8 w KQkq - 0").unwrap_err(),
        FenParseError::InvalidLength
    );
    assert_eq!(
        Board::from_fen("8/8/8/8/8/8/8/8 w KQkq - 0 1 extra").unwrap_err(),
        FenParseError::InvalidLength
    );
    // A doubled space makes an extra empty field.
    assert_eq!(
        Board::from_fen("8/8/8/8/8/8/8/8  w KQkq - 0 1").unwrap_err(),
        FenParseError::InvalidLength
    );
}

#[test]
fn bad_side_is_invalid_side() {
    assert_eq!(
        Board::from_fen("8/8/8/8/8/8/8/8 x KQkq - 0 1").unwrap_err(),
        FenParseError::InvalidSide
    );
    assert_eq!(
        Board::from_fen("8/8/8/8/8/8/8/8 wb KQkq - 0 1").unwrap_err(),
        FenParseError::InvalidSide
    );
    assert_eq!(
        Board::from_fen("8/8/8/8/8/8/8/8 W KQkq - 0 1").unwrap_err(),
        FenParseError::InvalidSide
    );
}

#[test]
fn bad_castling_char_is_invalid_castling_rights() {
    assert_eq!(
        Board::from_fen("8/8/8/8/8/8/8/8 w KQxq - 0 1").unwrap_err(),
        FenParseError::InvalidCastlingRights
    );
    assert_eq!(
        Board::from_fen("8/8/8/8/8/8/8/8 w A - 0 1").unwrap_err(),
        FenParseError::InvalidCastlingRights
    );
}

#[test]
fn castling_field_variants() {
    let b = Board::from_fen("8/8/8/8/8/8/8/8 w - - 0 1").unwrap();
    assert!(!b.castling_rights.has_kingside_white());
    assert!(!b.castling_rights.has_queenside_white());
    assert!(!b.castling_rights.has_kingside_black());
    assert!(!b.castling_rights.has_queenside_black());

    let b = Board::from_fen("8/8/8/8/8/8/8/8 w Kq - 0 1").unwrap();
    assert!(b.castling_rights.has_kingside_white());
    assert!(!b.castling_rights.has_queenside_white());
    assert!(!b.castling_rights.has_kingside_black());
    assert!(b.castling_rights.has_queenside_black());

    // Duplicates are harmless.
    let b = Board::from_fen("8/8/8/8/8/8/8/8 w KKQQkkqq - 0 1").unwrap();
    assert_eq!(b.castling_rights.rights, engine::castling::Castling::ANY_CASTLING);
}

#[test]
fn bad_placement_char_is_invalid_piece_placement() {
    assert_eq!(
        Board::from_fen("rnbqkbnr/ppppXppp/8/8/8/8/PPPPPPPP/RNBQKBNR w KQkq - 0 1").unwrap_err(),
        FenParseError::InvalidPiecePlacement
    );
    // '9' is not a skip digit.
    assert_eq!(
        Board::from_fen("9/8/8/8/8/8/8/8 w - - 0 1").unwrap_err(),
        FenParseError::InvalidPiecePlacement
    );
    // '0' is not a skip digit.
    assert_eq!(
        Board::from_fen("0/8/8/8/8/8/8/8 w - - 0 1").unwrap_err(),
        FenParseError::InvalidPiecePlacement
    );
}

#[test]
fn wrong_group_count_is_invalid_piece_placement() {
    assert_eq!(
        Board::from_fen("8/8/8/8/8/8/8 w - - 0 1").unwrap_err(),
        FenParseError::InvalidPiecePlacement
    );
    assert_eq!(
        Board::from_fen("8/8/8/8/8/8/8/8/8 w - - 0 1").unwrap_err(),
        FenParseError::InvalidPiecePlacement
    );
}

#[test]
fn overfull_group_is_invalid_piece_placement() {
    // Nine pawns in one group run past file 7.
    assert_eq!(
        Board::from_fen("ppppppppp/8/8/8/8/8/8/8 w - - 0 1").unwrap_err(),
        FenParseError::InvalidPiecePlacement
    );
    // A skip digit may not pass the right edge either.
    assert_eq!(
        Board::from_fen("p8/8/8/8/8/8/8/8 w - - 0 1").unwrap_err(),
        FenParseError::InvalidPiecePlacement
    );
}

#[test]
fn en_passant_field() {
    let b = Board::from_fen("rnbqkbnr/pppppppp/8/8/4P3/8/PPPP1PPP/RNBQKBNR b KQkq e3 0 1")
        .unwrap();
    assert_eq!(b.en_passant_square, Some(Square::E3));
    assert_eq!(b.side_to_move, Sides::BLACK);

    assert_eq!(
        Board::from_fen("8/8/8/8/8/8/8/8 w - e9 0 1").unwrap_err(),
        FenParseError::InvalidEnPassant
    );
    assert_eq!(
        Board::from_fen("8/8/8/8/8/8/8/8 w - i3 0 1").unwrap_err(),
        FenParseError::InvalidEnPassant
    );
    assert_eq!(
        Board::from_fen("8/8/8/8/8/8/8/8 w - e33 0 1").unwrap_err(),
        FenParseError::InvalidEnPassant
    );
}

#[test]
fn move_clock_fields() {
    let b = Board::from_fen("8/8/8/8/8/8/8/8 w - - 255 65535").unwrap();
    assert_eq!(b.halfmove_clock, 255);
    assert_eq!(b.fullmove_clock, 65535);

    // A leading plus sign parses, as an integer read would.
    let b = Board::from_fen("8/8/8/8/8/8/8/8 w - - +5 1").unwrap();
    assert_eq!(b.halfmove_clock, 5);

    assert_eq!(
        Board::from_fen("8/8/8/8/8/8/8/8 w - - x 1").unwrap_err(),
        FenParseError::InvalidMoveClock
    );
    assert_eq!(
        Board::from_fen("8/8/8/8/8/8/8/8 w - - 256 1").unwrap_err(),
        FenParseError::InvalidMoveClock
    );
    assert_eq!(
        Board::from_fen("8/8/8/8/8/8/8/8 w - - 0 65536").unwrap_err(),
        FenParseError::InvalidMoveClock
    );
    assert_eq!(
        Board::from_fen("8/8/8/8/8/8/8/8 w - - -1 1").unwrap_err(),
        FenParseError::InvalidMoveClock
    );
    assert_eq!(
        Board::from_fen("8/8/8/8/8/8/8/8 w - - + 1").unwrap_err(),
        FenParseError::InvalidMoveClock
    );
}

#[test]
fn first_failure_wins() {
    // A bad placement is reported even when later fields are bad too.
    assert_eq!(
        Board::from_fen("X/8/8/8/8/8/8/8 x ! zz q q").unwrap_err(),
        FenParseError::InvalidPiecePlacement
    );
    // A bad side is reported before the bad castling field.
    assert_eq!(
        Board::from_fen("8/8/8/8/8/8/8/8 x ! - 0 1").unwrap_err(),
        FenParseError::InvalidSide
    );
}

#[test]
fn move_piece_updates_three_layers_and_side() {
    let mut b = Board::from_fen(START).unwrap();
    b.move_piece(Pieces::PAWN, &Square::E2, &Square::E4);

    let expected_pawns: u64 = (0xFF00u64 & !(1 << 12)) | (1 << 28);
    assert_eq!(b.piece_bb.white.pawn.0, expected_pawns);
    assert_eq!(b.color_bb.white.0, (0xFFFFu64 & !(1 << 12)) | (1 << 28));
    assert_eq!(
        b.occupied_bb.0,
        (0xFFFF_0000_0000_FFFFu64 & !(1 << 12)) | (1 << 28)
    );
    assert_eq!(b.side_to_move, Sides::BLACK);
}
