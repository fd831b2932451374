//! The movement rules: one predicate per kind of piece, and the legality of
//! a move on a position.
//!
//! The predicates for rook, bishop, queen, knight and king look at the shape
//! of a move only. The squares between origin and destination are never
//! inspected, so a sliding piece may pass over occupied squares. The pawn
//! predicate also looks at the destination and, for the double step, at the
//! square in between.

use vstd::prelude::*;
use crate::board::on_board;
use crate::board::sq;
use crate::board::ChessBoard;
use crate::board::Position;
use crate::piece::Color;
use crate::piece::Piece;
use crate::piece::PieceType;

verus! {

/// The distance between two coordinates.
pub open spec fn gap(a: int, b: int) -> int {
    if a <= b {
        b - a
    } else {
        a - b
    }
}

/// A rook moves along its rank or along its file.
pub open spec fn rook_shape(from: (int, int), to: (int, int)) -> bool {
    to.0 == from.0 || to.1 == from.1
}

/// A bishop moves as many ranks as files.
pub open spec fn bishop_shape(from: (int, int), to: (int, int)) -> bool {
    gap(from.0, to.0) == gap(from.1, to.1)
}

/// A queen moves like a rook or like a bishop.
pub open spec fn queen_shape(from: (int, int), to: (int, int)) -> bool {
    rook_shape(from, to) || bishop_shape(from, to)
}

/// A knight moves two ranks and one file, or one rank and two files.
pub open spec fn knight_shape(from: (int, int), to: (int, int)) -> bool {
    ||| gap(from.0, to.0) == 2 && gap(from.1, to.1) == 1
    ||| gap(from.0, to.0) == 1 && gap(from.1, to.1) == 2
}

/// A king moves at most one rank and at most one file.
pub open spec fn king_shape(from: (int, int), to: (int, int)) -> bool {
    gap(from.0, to.0) <= 1 && gap(from.1, to.1) <= 1
}

impl Position {
    /// The pawn rule for a pawn of side `color` on `from`. One of three
    /// moves: a single step forward onto an empty square; a double step
    /// forward from the pawn's starting rank, over an empty square onto an
    /// empty square; or a step diagonally forward onto an occupied square.
    pub open spec fn pawn_move(self, from: (int, int), to: (int, int), color: Color) -> bool {
        let ahead = from.0 + color.forward();
        ||| to.0 == ahead && to.1 == from.1 && self.piece_at(to) is None
        ||| {
            &&& from.0 == color.pawn_rank()
            &&& to.0 == from.0 + 2 * color.forward()
            &&& to.1 == from.1
            &&& self.piece_at((ahead, from.1)) is None
            &&& self.piece_at(to) is None
        }
        ||| to.0 == ahead && gap(from.1, to.1) == 1 && self.piece_at(to) is Some
    }

    /// The movement rule of `piece` for a move from `from` to `to`.
    pub open spec fn piece_move(self, piece: Piece, from: (int, int), to: (int, int)) -> bool {
        match piece.piece_type {
            PieceType::Pawn => self.pawn_move(from, to, piece.color),
            PieceType::Rook => rook_shape(from, to),
            PieceType::Knight => knight_shape(from, to),
            PieceType::Bishop => bishop_shape(from, to),
            PieceType::Queen => queen_shape(from, to),
            PieceType::King => king_shape(from, to),
        }
    }

    /// Whether the side to move may move from `from` to `to`: the two
    /// squares differ, a piece of the side to move stands on `from`, no piece
    /// of that side stands on `to`, and the move obeys the piece's rule.
    pub open spec fn legal_move(self, from: (int, int), to: (int, int)) -> bool {
        &&& from != to
        &&& self.piece_at(from) matches Some(piece)
        &&& piece.color == self.turn
        &&& !(self.piece_at(to) matches Some(target) && target.color == piece.color)
        &&& self.piece_move(piece, from, to)
    }

    /// The position after an attempt to move from `from` to `to`: the move
    /// is made if it is legal, and nothing changes if it is not.
    pub open spec fn play(self, from: (int, int), to: (int, int)) -> Position {
        if self.legal_move(from, to) {
            self.after_move(from, to)
        } else {
            self
        }
    }
}

/// The distance between two coordinates.
fn distance(a: usize, b: usize) -> (d: usize)
    ensures
        d == gap(a as int, b as int),
{
    if a <= b {
        b - a
    } else {
        a - b
    }
}

impl ChessBoard {
    /// Decides whether the side to move may move from `from` to `to`.
    pub fn is_valid_move(&self, from: (usize, usize), to: (usize, usize)) -> (legal: bool)
        requires
            on_board(sq(from)),
            on_board(sq(to)),
        ensures
            legal == self@.legal_move(sq(from), sq(to)),
    {
        if from.0 == to.0 && from.1 == to.1 {
            return false;
        }
        let piece = match self.board[from.0][from.1] {
            Some(p) => p,
            None => {
                return false;
            },
        };
        if piece.color != self.current_turn {
            return false;
        }
        if let Some(target) = self.board[to.0][to.1] {
            if target.color == piece.color {
                return false;
            }
        }
        match piece.piece_type {
            PieceType::Pawn => self.is_valid_pawn_move(from, to, piece.color),
            PieceType::Rook => self.is_valid_rook_move(from, to),
            PieceType::Knight => self.is_valid_knight_move(from, to),
            PieceType::Bishop => self.is_valid_bishop_move(from, to),
            PieceType::Queen => self.is_valid_queen_move(from, to),
            PieceType::King => self.is_valid_king_move(from, to),
        }
    }

    /// The pawn rule for a pawn of side `color` on `from`.
    pub fn is_valid_pawn_move(
        &self,
        from: (usize, usize),
        to: (usize, usize),
        color: Color,
    ) -> (valid: bool)
        requires
            on_board(sq(from)),
            on_board(sq(to)),
        ensures
            valid == self@.pawn_move(sq(from), sq(to), color),
    {
        let direction: i32 = if color == Color::White { 1 } else { -1 };
        let start_row: usize = if color == Color::White { 1 } else { 6 };
        let forward: i32 = from.0 as i32 + direction;
        let double_forward: i32 = from.0 as i32 + 2 * direction;

        if to.0 as i32 == forward && to.1 == from.1 && self.board[to.0][to.1].is_none() {
            return true;
        }
        if from.0 == start_row && to.0 as i32 == double_forward && to.1 == from.1 {
            return self.board[forward as usize][from.1].is_none()
                && self.board[to.0][to.1].is_none();
        }
        if to.0 as i32 == forward && distance(from.1, to.1) == 1 {
            return self.board[to.0][to.1].is_some();
        }
        false
    }

    /// The rook rule.
    pub fn is_valid_rook_move(&self, from: (usize, usize), to: (usize, usize)) -> (valid: bool)
        ensures
            valid == rook_shape(sq(from), sq(to)),
    {
        from.0 == to.0 || from.1 == to.1
    }

    /// The knight rule.
    pub fn is_valid_knight_move(&self, from: (usize, usize), to: (usize, usize)) -> (valid: bool)
        ensures
            valid == knight_shape(sq(from), sq(to)),
    {
        let dx: usize = distance(from.0, to.0);
        let dy: usize = distance(from.1, to.1);
        (dx == 2 && dy == 1) || (dx == 1 && dy == 2)
    }

    /// The bishop rule.
    pub fn is_valid_bishop_move(&self, from: (usize, usize), to: (usize, usize)) -> (valid: bool)
        ensures
            valid == bishop_shape(sq(from), sq(to)),
    {
        let dx: usize = distance(from.0, to.0);
        let dy: usize = distance(from.1, to.1);
        dx == dy
    }

    /// The queen rule.
    pub fn is_valid_queen_move(&self, from: (usize, usize), to: (usize, usize)) -> (valid: bool)
        ensures
            valid == queen_shape(sq(from), sq(to)),
    {
        self.is_valid_rook_move(from, to) || self.is_valid_bishop_move(from, to)
    }

    /// The king rule.
    pub fn is_valid_king_move(&self, from: (usize, usize), to: (usize, usize)) -> (valid: bool)
        ensures
            valid == king_shape(sq(from), sq(to)),
    {
        let dx: usize = distance(from.0, to.0);
        let dy: usize = distance(from.1, to.1);
        dx <= 1 && dy <= 1
    }

    /// Makes the move from `from` to `to` if it is legal, and reports
    /// whether it was made. An illegal move leaves the board as it was.
    pub fn make_move(&mut self, from: (usize, usize), to: (usize, usize)) -> (moved: bool)
        requires
            on_board(sq(from)),
            on_board(sq(to)),
        ensures
            moved == old(self)@.legal_move(sq(from), sq(to)),
            final(self)@ == old(self)@.play(sq(from), sq(to)),
            !moved ==> *final(self) == *old(self),
    {
        if !self.is_valid_move(from, to) {
            return false;
        }
        self.apply_move(from, to);
        true
    }
}

} // verus!
