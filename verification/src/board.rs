use vstd::prelude::*;

verus! {

use crate::bitboard::{BitBoard, square_mask};
use crate::castling::Castling;
use crate::errors::{FenParseError, SquareError};
use crate::objects::{Pieces, Sides};
use crate::square::Square;

/// The six per-piece bitboards of one side, one named slot per piece type.
#[derive(Debug, Clone, Copy, PartialEq, Eq)]
pub struct SidePieces {
    pub pawn: BitBoard,
    pub bishop: BitBoard,
    pub knight: BitBoard,
    pub rook: BitBoard,
    pub queen: BitBoard,
    pub king: BitBoard,
}

impl SidePieces {
    /// The six slots all empty.
    pub open spec fn spec_empty() -> SidePieces {
        SidePieces {
            pawn: BitBoard(0),
            bishop: BitBoard(0),
            knight: BitBoard(0),
            rook: BitBoard(0),
            queen: BitBoard(0),
            king: BitBoard(0),
        }
    }

    /// The slot of `piece`.
    pub open spec fn spec_get(self, piece: Pieces) -> BitBoard {
        match piece {
            Pieces::PAWN => self.pawn,
            Pieces::BISHOP => self.bishop,
            Pieces::KNIGHT => self.knight,
            Pieces::ROOK => self.rook,
            Pieces::QUEEN => self.queen,
            Pieces::KING => self.king,
        }
    }

    /// This value with the slot of `piece` replaced by `bb`.
    pub open spec fn spec_with(self, piece: Pieces, bb: BitBoard) -> SidePieces {
        match piece {
            Pieces::PAWN => SidePieces { pawn: bb, ..self },
            Pieces::BISHOP => SidePieces { bishop: bb, ..self },
            Pieces::KNIGHT => SidePieces { knight: bb, ..self },
            Pieces::ROOK => SidePieces { rook: bb, ..self },
            Pieces::QUEEN => SidePieces { queen: bb, ..self },
            Pieces::KING => SidePieces { king: bb, ..self },
        }
    }

    /// The union of the six slots: every square this side occupies.
    pub open spec fn spec_union(self) -> u64 {
        self.pawn.0 | self.bishop.0 | self.knight.0 | self.rook.0 | self.queen.0 | self.king.0
    }

    /// All six slots empty.
    pub fn new() -> (r: Self)
        ensures
            r == Self::spec_empty(),
    {
        SidePieces {
            pawn: BitBoard(0),
            bishop: BitBoard(0),
            knight: BitBoard(0),
            rook: BitBoard(0),
            queen: BitBoard(0),
            king: BitBoard(0),
        }
    }

    /// Reads the slot of `piece`.
    pub fn get(&self, piece: Pieces) -> (r: BitBoard)
        ensures
            r == self.spec_get(piece),
    {
        match piece {
            Pieces::PAWN => self.pawn,
            Pieces::BISHOP => self.bishop,
            Pieces::KNIGHT => self.knight,
            Pieces::ROOK => self.rook,
            Pieces::QUEEN => self.queen,
            Pieces::KING => self.king,
        }
    }

    /// Replaces the slot of `piece` with `bb`; the other slots keep their value.
    pub fn put(&mut self, piece: Pieces, bb: BitBoard)
        ensures
            *final(self) == old(self).spec_with(piece, bb),
    {
        match piece {
            Pieces::PAWN => self.pawn = bb,
            Pieces::BISHOP => self.bishop = bb,
            Pieces::KNIGHT => self.knight = bb,
            Pieces::ROOK => self.rook = bb,
            Pieces::QUEEN => self.queen = bb,
            Pieces::KING => self.king = bb,
        }
    }
}

/// The side-by-piece grid of twelve bitboards, one six-slot block per side.
#[derive(Debug, Clone, Copy, PartialEq, Eq)]
pub struct PieceGrid {
    pub white: SidePieces,
    pub black: SidePieces,
}

impl PieceGrid {
    /// The six-slot block of `side`.
    pub open spec fn spec_side(self, side: Sides) -> SidePieces {
        match side {
            Sides::WHITE => self.white,
            Sides::BLACK => self.black,
        }
    }

    /// This grid with the block of `side` replaced.
    pub open spec fn spec_with_side(self, side: Sides, block: SidePieces) -> PieceGrid {
        match side {
            Sides::WHITE => PieceGrid { white: block, ..self },
            Sides::BLACK => PieceGrid { black: block, ..self },
        }
    }

    /// The bitboard of `side`'s `piece`.
    pub open spec fn spec_get(self, side: Sides, piece: Pieces) -> BitBoard {
        self.spec_side(side).spec_get(piece)
    }

    /// This grid with the bitboard of `side`'s `piece` replaced by `bb`.
    pub open spec fn spec_with(self, side: Sides, piece: Pieces, bb: BitBoard) -> PieceGrid {
        self.spec_with_side(side, self.spec_side(side).spec_with(piece, bb))
    }

    /// Reads the bitboard of `side`'s `piece`.
    pub fn get(&self, side: Sides, piece: Pieces) -> (r: BitBoard)
        ensures
            r == self.spec_get(side, piece),
    {
        match side {
            Sides::WHITE => self.white.get(piece),
            Sides::BLACK => self.black.get(piece),
        }
    }

    /// Replaces the bitboard of `side`'s `piece` with `bb`; the other eleven
    /// keep their value.
    pub fn put(&mut self, side: Sides, piece: Pieces, bb: BitBoard)
        ensures
            *final(self) == old(self).spec_with(side, piece, bb),
    {
        match side {
            Sides::WHITE => self.white.put(piece, bb),
            Sides::BLACK => self.black.put(piece, bb),
        }
    }
}

/// The two per-side aggregate bitboards.
#[derive(Debug, Clone, Copy, PartialEq, Eq)]
pub struct ColorBoards {
    pub white: BitBoard,
    pub black: BitBoard,
}

impl ColorBoards {
    /// The aggregate board of `side`.
    pub open spec fn spec_get(self, side: Sides) -> BitBoard {
        match side {
            Sides::WHITE => self.white,
            Sides::BLACK => self.black,
        }
    }

    /// This pair with the aggregate board of `side` replaced by `bb`.
    pub open spec fn spec_with(self, side: Sides, bb: BitBoard) -> ColorBoards {
        match side {
            Sides::WHITE => ColorBoards { white: bb, ..self },
            Sides::BLACK => ColorBoards { black: bb, ..self },
        }
    }

    /// Reads the aggregate board of `side`.
    pub fn get(&self, side: Sides) -> (r: BitBoard)
        ensures
            r == self.spec_get(side),
    {
        match side {
            Sides::WHITE => self.white,
            Sides::BLACK => self.black,
        }
    }

    /// Replaces the aggregate board of `side` with `bb`; the other side's
    /// board keeps its value.
    pub fn put(&mut self, side: Sides, bb: BitBoard)
        ensures
            *final(self) == old(self).spec_with(side, bb),
    {
        match side {
            Sides::WHITE => self.white = bb,
            Sides::BLACK => self.black = bb,
        }
    }
}

/// The aggregate position: twelve per-side-per-piece bitboards, two per-side
/// aggregate bitboards, the global occupancy bitboard, side to move, castling
/// rights, the optional en-passant target square, and the two move clocks.
#[derive(Debug, Clone, Copy, PartialEq, Eq)]
pub struct Board {
    pub piece_bb: PieceGrid,
    pub color_bb: ColorBoards,
    pub occupied_bb: BitBoard,
    pub side_to_move: Sides,
    pub castling_rights: Castling,
    pub en_passant_square: Option<Square>,
    pub halfmove_clock: u8,
    pub fullmove_clock: u16,
}

impl Board {
    /// The board a decode starts from: no pieces anywhere, white to move, no
    /// castling rights, no en-passant target, clocks at 0 and 1.
    pub open spec fn spec_empty() -> Board {
        Board {
            piece_bb: PieceGrid {
                white: SidePieces::spec_empty(),
                black: SidePieces::spec_empty(),
            },
            color_bb: ColorBoards { white: BitBoard(0), black: BitBoard(0) },
            occupied_bb: BitBoard(0),
            side_to_move: Sides::WHITE,
            castling_rights: Castling { rights: 0 },
            en_passant_square: None,
            halfmove_clock: 0,
            fullmove_clock: 1,
        }
    }

    /// This board with the bit of linear square index `idx` set in three
    /// layers together: the piece board of `side`/`piece`, the aggregate
    /// board of `side`, and the global occupancy board.
    pub open spec fn spec_set_bit(self, side: Sides, piece: Pieces, idx: int) -> Board {
        Board {
            piece_bb: self.piece_bb.spec_with(
                side,
                piece,
                BitBoard(self.piece_bb.spec_get(side, piece).0 | square_mask(idx)),
            ),
            color_bb: self.color_bb.spec_with(
                side,
                BitBoard(self.color_bb.spec_get(side).0 | square_mask(idx)),
            ),
            occupied_bb: BitBoard(self.occupied_bb.0 | square_mask(idx)),
            ..self
        }
    }

    /// This board with the bit of linear square index `idx` cleared in the
    /// same three layers together.
    pub open spec fn spec_unset_bit(self, side: Sides, piece: Pieces, idx: int) -> Board {
        Board {
            piece_bb: self.piece_bb.spec_with(
                side,
                piece,
                BitBoard(self.piece_bb.spec_get(side, piece).0 & !square_mask(idx)),
            ),
            color_bb: self.color_bb.spec_with(
                side,
                BitBoard(self.color_bb.spec_get(side).0 & !square_mask(idx)),
            ),
            occupied_bb: BitBoard(self.occupied_bb.0 & !square_mask(idx)),
            ..self
        }
    }

    /// The documented aggregate invariant: each side's aggregate board is the
    /// union of that side's six piece boards, and the global occupancy board
    /// is the union of the two aggregates.
    pub open spec fn wf(self) -> bool {
        &&& self.color_bb.white.0 == self.piece_bb.white.spec_union()
        &&& self.color_bb.black.0 == self.piece_bb.black.spec_union()
        &&& self.occupied_bb.0 == self.color_bb.white.0 | self.color_bb.black.0
    }

    /// The sole construction entry point: decodes a six-field position text
    /// into a freshly built board, exactly as `spec_from_fen` reads it. The
    /// first failing field aborts the decode with that field's error; no
    /// partially populated board is ever returned, and every decoded board
    /// keeps the aggregate invariant.
    pub fn from_fen(fen: &str) -> (r: Result<Board, FenParseError>)
        ensures
            r == crate::fen::spec_from_fen(fen@),
            (r matches Ok(b) ==> b.wf()),
    {
        let fields = crate::fen::split_spaces(fen);
        if fields.len() != 6 {
            return Err(FenParseError::InvalidLength);
        }
        let mut board = Board {
            piece_bb: PieceGrid { white: SidePieces::new(), black: SidePieces::new() },
            color_bb: ColorBoards { white: BitBoard(0), black: BitBoard(0) },
            occupied_bb: BitBoard(0),
            side_to_move: Sides::WHITE,
            castling_rights: Castling::none(),
            en_passant_square: None,
            halfmove_clock: 0,
            fullmove_clock: 1,
        };
        proof {
            assert(board == Board::spec_empty());
        }
        match crate::fen::parse_piece_placement(&mut board, fields[0]) {
            Ok(_) => {},
            Err(e) => {
                return Err(e);
            },
        }
        match crate::fen::parse_playing_side(&mut board, fields[1]) {
            Ok(_) => {},
            Err(e) => {
                return Err(e);
            },
        }
        match crate::fen::parse_castling_rights(&mut board, fields[2]) {
            Ok(_) => {},
            Err(e) => {
                return Err(e);
            },
        }
        match crate::fen::parse_en_passant(&mut board, fields[3]) {
            Ok(_) => {},
            Err(e) => {
                return Err(e);
            },
        }
        match crate::fen::parse_move_clocks(&mut board, fields[4], fields[5]) {
            Ok(_) => {},
            Err(e) => {
                return Err(e);
            },
        }
        proof {
            crate::fen::lemma_decoded_board_wf(fen@);
        }
        Ok(board)
    }

    /// One lockstep bit-set keeps the aggregate invariant: uniting the same
    /// mask into a piece board, that side's aggregate, and the global
    /// occupancy leaves each aggregate the union of its parts.
    pub proof fn lemma_set_bit_preserves_wf(self, side: Sides, piece: Pieces, idx: int)
        requires
            self.wf(),
        ensures
            self.spec_set_bit(side, piece, idx).wf(),
    {
        let m = square_mask(idx);
        let cw = self.color_bb.white.0;
        let cb = self.color_bb.black.0;
        assert(((cw | m) | cb) == ((cw | cb) | m)) by (bit_vector);
        assert((cw | (cb | m)) == ((cw | cb) | m)) by (bit_vector);
        let block = self.piece_bb.spec_side(side);
        let p = block.pawn.0;
        let b = block.bishop.0;
        let n = block.knight.0;
        let r = block.rook.0;
        let q = block.queen.0;
        let k = block.king.0;
        match piece {
            Pieces::PAWN => {
                assert(((p | m) | b | n | r | q | k) == ((p | b | n | r | q | k) | m)) by (bit_vector);
            },
            Pieces::BISHOP => {
                assert((p | (b | m) | n | r | q | k) == ((p | b | n | r | q | k) | m)) by (bit_vector);
            },
            Pieces::KNIGHT => {
                assert((p | b | (n | m) | r | q | k) == ((p | b | n | r | q | k) | m)) by (bit_vector);
            },
            Pieces::ROOK => {
                assert((p | b | n | (r | m) | q | k) == ((p | b | n | r | q | k) | m)) by (bit_vector);
            },
            Pieces::QUEEN => {
                assert((p | b | n | r | (q | m) | k) == ((p | b | n | r | q | k) | m)) by (bit_vector);
            },
            Pieces::KING => {
                assert((p | b | n | r | q | (k | m)) == ((p | b | n | r | q | k) | m)) by (bit_vector);
            },
        }
    }

    /// Sets the three bitboard layers at `square` in lockstep: the piece
    /// board of `side`/`piece`, the aggregate board of `side`, and the global
    /// occupancy board; nothing else changes.
    pub fn set_square(&mut self, side: Sides, piece: Pieces, square: &Square)
        ensures
            *final(self) == old(self).spec_set_bit(side, piece, square.linear_index()),
    {
        let mut bb = self.piece_bb.get(side, piece);
        bb.set_square(square);
        self.piece_bb.put(side, piece, bb);
        let mut cb = self.color_bb.get(side);
        cb.set_square(square);
        self.color_bb.put(side, cb);
        self.occupied_bb.set_square(square);
    }

    /// Clears the three bitboard layers at `square` in lockstep; nothing else
    /// changes.
    pub fn unset_square(&mut self, side: Sides, piece: Pieces, square: &Square)
        ensures
            *final(self) == old(self).spec_unset_bit(side, piece, square.linear_index()),
    {
        let mut bb = self.piece_bb.get(side, piece);
        bb.unset_square(square);
        self.piece_bb.put(side, piece, bb);
        let mut cb = self.color_bb.get(side);
        cb.unset_square(square);
        self.color_bb.put(side, cb);
        self.occupied_bb.unset_square(square);
    }

    /// Sets the three bitboard layers at `rank`/`file` when both lie in
    /// `0..=7`; other coordinates are rejected with `InvalidFileRank` and the
    /// board is left unchanged.
    pub fn set_rank_file(&mut self, side: Sides, piece: Pieces, rank: u8, file: u8) -> (r: Result<
        (),
        SquareError,
    >)
        ensures
            rank <= 7 && file <= 7 ==> r == Ok::<(), SquareError>(()) && *final(self) == old(
                self,
            ).spec_set_bit(side, piece, rank as int * 8 + file as int),
            rank > 7 || file > 7 ==> r == Err::<(), SquareError>(SquareError::InvalidFileRank)
                && *final(self) == *old(self),
    {
        let square = match Square::from_coords(rank, file) {
            Ok(sq) => sq,
            Err(e) => {
                return Err(e);
            },
        };
        self.set_square(side, piece, &square);
        Ok(())
    }

    /// Clears the three bitboard layers at `rank`/`file` when both lie in
    /// `0..=7`; other coordinates are rejected with `InvalidFileRank` and the
    /// board is left unchanged.
    pub fn unset_rank_file(&mut self, side: Sides, piece: Pieces, rank: u8, file: u8) -> (r: Result<
        (),
        SquareError,
    >)
        ensures
            rank <= 7 && file <= 7 ==> r == Ok::<(), SquareError>(()) && *final(self) == old(
                self,
            ).spec_unset_bit(side, piece, rank as int * 8 + file as int),
            rank > 7 || file > 7 ==> r == Err::<(), SquareError>(SquareError::InvalidFileRank)
                && *final(self) == *old(self),
    {
        let square = match Square::from_coords(rank, file) {
            Ok(sq) => sq,
            Err(e) => {
                return Err(e);
            },
        };
        self.unset_square(side, piece, &square);
        Ok(())
    }

    /// Moves `piece` of the side to move from `from` to `to`: clears the
    /// source square, sets the destination square, and hands the move to the
    /// other side. Capture handling is outside this core: whatever occupied
    /// the destination square is not removed.
    pub fn move_piece(&mut self, piece: Pieces, from: &Square, to: &Square)
        ensures
            *final(self) == (Board {
                side_to_move: old(self).side_to_move.spec_other(),
                ..old(self).spec_unset_bit(
                    old(self).side_to_move,
                    piece,
                    from.linear_index(),
                ).spec_set_bit(old(self).side_to_move, piece, to.linear_index())
            }),
    {
        let side = self.side_to_move;
        self.unset_square(side, piece, from);
        self.set_square(side, piece, to);
        self.side_to_move = match side {
            Sides::WHITE => Sides::BLACK,
            Sides::BLACK => Sides::WHITE,
        };
    }
}

} // verus!
