//! A board shown on a screen: which cell of the picture is which square,
//! how a square is tinted, which image shows a piece, and what a click on a
//! square does.
//!
//! The picture is a grid of eight columns and eight rows, column 0 on the
//! left and row 0 on top, seen from White's side: the a-file is the left
//! column and rank 0 is the bottom row.

use vstd::prelude::*;
use crate::board::on_board;
use crate::board::sq;
use crate::board::ChessBoard;
use crate::board::Position;
use crate::piece::Color;
use crate::piece::Piece;
use crate::piece::PieceType;

verus! {

/// The square shown in a cell of the picture, if the cell is one of the
/// 64: the column is the file, and the rows count down from rank 7.
pub open spec fn square_in_cell(column: int, row: int) -> Option<(int, int)> {
    if 0 <= column < 8 && 0 <= row < 8 {
        Some((7 - row, column))
    } else {
        None
    }
}

/// The cell, as (column, row), that shows a square.
pub open spec fn cell_showing(square: (int, int)) -> (int, int) {
    (square.1, 7 - square.0)
}

/// Every square of the board is shown in one cell, and that cell shows no
/// other square.
pub proof fn cells_and_squares_correspond(square: (int, int), column: int, row: int)
    ensures
        on_board(square) ==> square_in_cell(cell_showing(square).0, cell_showing(square).1)
            == Some(square),
        square_in_cell(column, row) matches Some(s) ==> on_board(s) && cell_showing(s) == (
            column,
            row,
        ),
{
}

/// The square shown in the cell at `column` and `row`, or nothing if the
/// cell lies outside the board.
pub fn square_at(column: usize, row: usize) -> (square: Option<(usize, usize)>)
    ensures
        match square {
            Some(s) => square_in_cell(column as int, row as int) == Some(sq(s)),
            None => square_in_cell(column as int, row as int) is None,
        },
{
    if column < 8 && row < 8 {
        Some((7 - row, column))
    } else {
        None
    }
}

/// The cell, as (column, row), that shows a square.
pub fn cell_of(square: (usize, usize)) -> (cell: (usize, usize))
    requires
        on_board(sq(square)),
    ensures
        sq(cell) == cell_showing(sq(square)),
{
    (square.1, 7 - square.0)
}

/// The tint of a square, as red, green and blue: squares whose rank and
/// file add up to an even number are cream, the others green.
pub open spec fn tint(square: (int, int)) -> (u8, u8, u8) {
    if (square.0 + square.1) % 2 == 0 {
        (238u8, 238u8, 210u8)
    } else {
        (118u8, 150u8, 86u8)
    }
}

/// The tint of a square, as red, green and blue.
pub fn square_rgb(square: (usize, usize)) -> (rgb: (u8, u8, u8))
    ensures
        rgb == tint(sq(square)),
{
    if square.0 % 2 == square.1 % 2 {
        (238, 238, 210)
    } else {
        (118, 150, 86)
    }
}

/// The name of the image of a piece: `w` or `b` for its side, then the
/// letter of its kind.
pub open spec fn image_name(piece: Piece) -> Seq<char> {
    seq![
        match piece.color {
            Color::White => 'w',
            Color::Black => 'b',
        },
        match piece.piece_type {
            PieceType::King => 'k',
            PieceType::Queen => 'q',
            PieceType::Rook => 'r',
            PieceType::Bishop => 'b',
            PieceType::Knight => 'n',
            PieceType::Pawn => 'p',
        },
    ]
}

/// The name of the image that shows a piece.
pub fn piece_image_name(piece: Piece) -> (name: &'static str)
    ensures
        name@ == image_name(piece),
{
    proof {
        reveal_strlit("wk");
        reveal_strlit("wq");
        reveal_strlit("wr");
        reveal_strlit("wb");
        reveal_strlit("wn");
        reveal_strlit("wp");
        reveal_strlit("bk");
        reveal_strlit("bq");
        reveal_strlit("br");
        reveal_strlit("bb");
        reveal_strlit("bn");
        reveal_strlit("bp");
    }
    let name = match (piece.color, piece.piece_type) {
        (Color::White, PieceType::King) => "wk",
        (Color::White, PieceType::Queen) => "wq",
        (Color::White, PieceType::Rook) => "wr",
        (Color::White, PieceType::Bishop) => "wb",
        (Color::White, PieceType::Knight) => "wn",
        (Color::White, PieceType::Pawn) => "wp",
        (Color::Black, PieceType::King) => "bk",
        (Color::Black, PieceType::Queen) => "bq",
        (Color::Black, PieceType::Rook) => "br",
        (Color::Black, PieceType::Bishop) => "bb",
        (Color::Black, PieceType::Knight) => "bn",
        (Color::Black, PieceType::Pawn) => "bp",
    };
    assert(name@ =~= image_name(piece));
    name
}

/// The mathematical model of a game at a screen: the position, and the
/// square that is selected, if one is.
pub struct GameView {
    pub position: Position,
    pub selected: Option<(int, int)>,
}

impl GameView {
    /// The selection that a click leaves when it makes no move: the square
    /// clicked if a piece stands on it, and none otherwise.
    pub open spec fn pick(position: Position, square: (int, int)) -> Option<(int, int)> {
        if position.piece_at(square) is Some {
            Some(square)
        } else {
            None
        }
    }

    /// The game after a click on `square`.
    ///
    /// With no square selected, the click selects `square` if a piece
    /// stands on it. With a square selected, the click asks for the move
    /// from that square to `square`: a legal move is made and clears the
    /// selection; an illegal one leaves the position alone and selects
    /// `square` if a piece stands on it, and clears the selection otherwise.
    pub open spec fn click(self, square: (int, int)) -> GameView {
        match self.selected {
            Some(from) if self.position.legal_move(from, square) => GameView {
                position: self.position.after_move(from, square),
                selected: None,
            },
            _ => GameView {
                position: self.position,
                selected: GameView::pick(self.position, square),
            },
        }
    }
}

/// A game at a screen: the board, and the square that the player has
/// selected with a first click, if any.
#[derive(Clone, Copy, PartialEq, Eq, Debug)]
pub struct Game {
    pub chess_board: ChessBoard,
    pub selected_square: Option<(usize, usize)>,
}

impl View for Game {
    type V = GameView;

    open spec fn view(&self) -> GameView {
        GameView {
            position: self.chess_board@,
            selected: match self.selected_square {
                Some(s) => Some(sq(s)),
                None => None,
            },
        }
    }
}

/// A click changes the position only by a legal move from the selected
/// square, which passes the turn; any other click leaves the position, and
/// with it the side to move, as it was. A selected square is always a
/// square that holds a piece.
pub proof fn clicks_move_only_by_the_rules(game: GameView, square: (int, int))
    ensures
        game.click(square).position != game.position ==> game.selected is Some
            && game.position.legal_move(game.selected->0, square),
        game.selected matches Some(from) && game.position.legal_move(from, square) ==> game.click(
            square,
        ).position.turn == game.position.turn.other(),
        game.click(square).selected matches Some(s) ==> s == square && game.click(
            square,
        ).position.piece_at(s) is Some,
{
    match game.selected {
        Some(from) if game.position.legal_move(from, square) => {
            assert(game.position.after_move(from, square).turn != game.position.turn);
        },
        _ => {},
    }
}

impl Game {
    /// The selected square, if there is one, is a square of the board.
    pub open spec fn well_formed(&self) -> bool {
        self.selected_square matches Some(s) ==> on_board(sq(s))
    }

    /// A new game: the starting position, nothing selected.
    pub fn new() -> (game: Game)
        ensures
            game.well_formed(),
            game@ == (GameView { position: Position::initial(), selected: None }),
    {
        Game { chess_board: ChessBoard::new(), selected_square: None }
    }

    /// Takes a click on a square of the board.
    pub fn click(&mut self, square: (usize, usize))
        requires
            old(self).well_formed(),
            on_board(sq(square)),
        ensures
            final(self).well_formed(),
            final(self)@ == old(self)@.click(sq(square)),
            final(self)@.position == old(self)@.position ==> final(self).chess_board == old(
                self,
            ).chess_board,
    {
        match self.selected_square {
            None => {
                if self.chess_board.piece_at(square).is_some() {
                    self.selected_square = Some(square);
                }
            },
            Some(from) => {
                if self.chess_board.make_move(from, square) {
                    self.selected_square = None;
                } else if self.chess_board.piece_at(square).is_some() {
                    self.selected_square = Some(square);
                } else {
                    self.selected_square = None;
                }
            },
        }
    }
}

} // verus!
