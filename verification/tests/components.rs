use engine::bitboard::BitBoard;
use engine::castling::Castling;
use engine::errors::{BitboardError, SquareError};
use engine::piece::Color;
use engine::square::Square;

#[test]
fn test_opposite_color() {
    let black = Color::Black;
    let white = Color::White;

    assert_eq!(black.opposite(), Color::White);
    assert_eq!(white.opposite(), Color::Black);
}

#[test]
fn bitboard_set_get_unset_round_trip() {
    let mut bb = BitBoard::new();
    assert_eq!(bb.0, 0);

    assert_eq!(bb.set_bit(3, 4), Ok(()));
    assert_eq!(bb.0, 1u64 << 28);
    assert_eq!(bb.get_bit(3, 4), Ok(true));
    assert_eq!(bb.get_bit(4, 3), Ok(false));

    assert_eq!(bb.unset_bit(3, 4), Ok(()));
    assert_eq!(bb.0, 0);
    assert_eq!(bb.get_bit(3, 4), Ok(false));
}

#[test]
fn bitboard_rejects_out_of_range_coordinates() {
    let mut bb = BitBoard::new();
    assert_eq!(bb.set_bit(8, 0), Err(BitboardError::InvalidRankOrFile));
    assert_eq!(bb.set_bit(0, 8), Err(BitboardError::InvalidRankOrFile));
    assert_eq!(bb.set_bit(255, 255), Err(BitboardError::InvalidRankOrFile));
    assert_eq!(bb.unset_bit(8, 0), Err(BitboardError::InvalidRankOrFile));
    assert_eq!(bb.unset_bit(0, 8), Err(BitboardError::InvalidRankOrFile));
    assert_eq!(bb.get_bit(8, 0), Err(BitboardError::InvalidRankOrFile));
    assert_eq!(bb.get_bit(0, 8), Err(BitboardError::InvalidRankOrFile));
    // The word is untouched by a rejected operation.
    assert_eq!(bb.0, 0);
}

#[test]
fn bitboard_set_square() {
    let mut bb = BitBoard::new();
    bb.set_square(&Square::E4);
    assert_eq!(bb.0, 1u64 << 28);
    bb.set_square(&Square::A1);
    assert_eq!(bb.0, (1u64 << 28) | 1);
    bb.unset_square(&Square::E4);
    assert_eq!(bb.0, 1);
}

#[test]
fn bitboard_render_grid() {
    let bb = BitBoard::new();
    let empty_row = "0 0 0 0 0 0 0 0";
    let expected = vec![empty_row; 8].join("\n");
    assert_eq!(bb.render(), expected);

    let mut bb = BitBoard::new();
    assert_eq!(bb.set_bit(0, 0), Ok(()));
    let mut rows = vec![empty_row.to_string(); 7];
    rows.push("1 0 0 0 0 0 0 0".to_string());
    assert_eq!(bb.render(), rows.join("\n"));

    let mut bb = BitBoard::new();
    assert_eq!(bb.set_bit(7, 7), Ok(()));
    let mut rows = vec![empty_row.to_string(); 8];
    rows[0] = "0 0 0 0 0 0 0 1".to_string();
    assert_eq!(bb.render(), rows.join("\n"));
}

#[test]
fn square_from_coords_bounds() {
    assert_eq!(Square::from_coords(0, 0), Ok(Square::A1));
    assert_eq!(Square::from_coords(7, 7), Ok(Square::H8));
    assert_eq!(Square::from_coords(2, 4), Ok(Square::E3));
    assert_eq!(Square::from_coords(8, 0), Err(SquareError::InvalidFileRank));
    assert_eq!(Square::from_coords(0, 8), Err(SquareError::InvalidFileRank));
    assert_eq!(Square::from_coords(200, 1), Err(SquareError::InvalidFileRank));
}

#[test]
fn square_coordinate_round_trip() {
    for index in 0u8..64 {
        let rank = index / 8;
        let file = index % 8;
        let sq = Square::from_coords(rank, file).unwrap();
        assert_eq!(sq.to_coords(), (rank, file));
    }
}

#[test]
fn square_from_algebraic_text() {
    assert_eq!(Square::from_square("a1"), Ok(Square::A1));
    assert_eq!(Square::from_square("A1"), Ok(Square::A1));
    assert_eq!(Square::from_square("h8"), Ok(Square::H8));
    assert_eq!(Square::from_square("e3"), Ok(Square::E3));
    assert_eq!(Square::from_square("E3"), Ok(Square::E3));

    assert_eq!(Square::from_square(""), Err(SquareError::InvalidSquare));
    assert_eq!(Square::from_square("e"), Err(SquareError::InvalidSquare));
    assert_eq!(Square::from_square("e33"), Err(SquareError::InvalidSquare));
    assert_eq!(Square::from_square("i3"), Err(SquareError::InvalidSquare));
    assert_eq!(Square::from_square("e0"), Err(SquareError::InvalidSquare));
    assert_eq!(Square::from_square("e9"), Err(SquareError::InvalidSquare));
    assert_eq!(Square::from_square("3e"), Err(SquareError::InvalidSquare));
}

#[test]
fn castling_constructors_and_queries() {
    let none = Castling::none();
    assert!(!none.has_kingside_white());
    assert!(!none.has_queenside_white());
    assert!(!none.has_kingside_black());
    assert!(!none.has_queenside_black());

    let all = Castling::all();
    assert!(all.has_kingside_white());
    assert!(all.has_queenside_white());
    assert!(all.has_kingside_black());
    assert!(all.has_queenside_black());

    let custom = Castling::new(Castling::WHITE_00 | Castling::BLACK_000);
    assert!(custom.has_kingside_white());
    assert!(!custom.has_queenside_white());
    assert!(!custom.has_kingside_black());
    assert!(custom.has_queenside_black());
}

#[test]
fn castling_add_and_remove() {
    let mut c = Castling::none();
    c.add_kingside_white();
    c.add_queenside_black();
    assert!(c.has_kingside_white());
    assert!(c.has_queenside_black());
    assert!(!c.has_queenside_white());
    assert!(!c.has_kingside_black());

    let mut c = Castling::all();
    c.remove_white_castling();
    assert!(!c.has_kingside_white());
    assert!(!c.has_queenside_white());
    assert!(c.has_kingside_black());
    assert!(c.has_queenside_black());

    let mut c = Castling::all();
    c.remove_black_castling();
    assert!(c.has_kingside_white());
    assert!(c.has_queenside_white());
    assert!(!c.has_kingside_black());
    assert!(!c.has_queenside_black());

    let mut c = Castling::all();
    c.remove_kingside();
    assert!(!c.has_kingside_white());
    assert!(!c.has_kingside_black());
    assert!(c.has_queenside_white());
    assert!(c.has_queenside_black());

    let mut c = Castling::all();
    c.remove_queenside();
    assert!(c.has_kingside_white());
    assert!(c.has_kingside_black());
    assert!(!c.has_queenside_white());
    assert!(!c.has_queenside_black());
}
