//! Pieces and the two sides that own them.

use vstd::prelude::*;

verus! {

/// The six kinds of chess piece.
#[derive(Copy, Clone, PartialEq, Eq, Structural, Debug, Hash)]
pub enum PieceType {
    King,
    Queen,
    Rook,
    Bishop,
    Knight,
    Pawn,
}

/// One of the two players.
#[derive(Copy, Clone, PartialEq, Eq, Structural, Debug, Hash)]
pub enum Color {
    White,
    Black,
}

/// A piece on the board: its kind and the side it belongs to.
#[derive(Copy, Clone, PartialEq, Eq, Structural, Debug, Hash)]
pub struct Piece {
    pub piece_type: PieceType,
    pub color: Color,
}

impl Color {
    /// The other side.
    pub open spec fn other(self) -> Color {
        match self {
            Color::White => Color::Black,
            Color::Black => Color::White,
        }
    }

    /// The rank step of this side's pawns: up the board for White, down for Black.
    pub open spec fn forward(self) -> int {
        match self {
            Color::White => 1,
            Color::Black => -1,
        }
    }

    /// The rank on which this side's pawns start.
    pub open spec fn pawn_rank(self) -> int {
        match self {
            Color::White => 1,
            Color::Black => 6,
        }
    }

    /// Returns the other side.
    pub fn opposite(self) -> (other: Color)
        ensures
            other == self.other(),
    {
        match self {
            Color::White => Color::Black,
            Color::Black => Color::White,
        }
    }
}

} // verus!
