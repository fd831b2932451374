//! The board: the position of a game and the side to move.

use vstd::prelude::*;
use crate::piece::Color;
use crate::piece::Piece;
use crate::piece::PieceType;

verus! {

/// Whether a (rank, file) pair names one of the 64 squares.
///
/// Rank 0 is White's home rank and file 0 is the a-file.
pub open spec fn on_board(square: (int, int)) -> bool {
    0 <= square.0 < 8 && 0 <= square.1 < 8
}

/// The mathematical square that an executable (rank, file) pair names.
pub open spec fn sq(square: (usize, usize)) -> (int, int) {
    (square.0 as int, square.1 as int)
}

/// The executable (rank, file) pair of a square of the board.
pub open spec fn coordinates(square: (int, int)) -> (usize, usize) {
    (square.0 as usize, square.1 as usize)
}

/// The kinds of the pieces on a home rank, from the a-file to the h-file.
pub open spec fn back_rank() -> Seq<PieceType> {
    seq![
        PieceType::Rook,
        PieceType::Knight,
        PieceType::Bishop,
        PieceType::Queen,
        PieceType::King,
        PieceType::Bishop,
        PieceType::Knight,
        PieceType::Rook,
    ]
}

/// What stands on a square when a game starts.
pub open spec fn initial_piece(square: (int, int)) -> Option<Piece> {
    if square.0 == 0 {
        Some(Piece { piece_type: back_rank()[square.1], color: Color::White })
    } else if square.0 == 1 {
        Some(Piece { piece_type: PieceType::Pawn, color: Color::White })
    } else if square.0 == 6 {
        Some(Piece { piece_type: PieceType::Pawn, color: Color::Black })
    } else if square.0 == 7 {
        Some(Piece { piece_type: back_rank()[square.1], color: Color::Black })
    } else {
        None
    }
}

/// The mathematical model of a board: what stands on each square, and whose
/// turn it is.
pub struct Position {
    /// The content of every square, keyed by (rank, file).
    pub squares: Map<(int, int), Option<Piece>>,
    /// The side to move.
    pub turn: Color,
}

impl Position {
    /// The position at the start of a game.
    pub open spec fn initial() -> Position {
        Position {
            squares: Map::new(|s: (int, int)| on_board(s), |s: (int, int)| initial_piece(s)),
            turn: Color::White,
        }
    }

    /// A position is total when it gives a content to exactly the 64 squares.
    pub open spec fn total(self) -> bool {
        forall|s: (int, int)| self.squares.dom().contains(s) <==> on_board(s)
    }

    /// The content of a square.
    pub open spec fn piece_at(self, square: (int, int)) -> Option<Piece> {
        self.squares[square]
    }

    /// The position after whatever stands on `from` is put on `to`: `to`
    /// takes the content of `from`, `from` becomes empty, and the turn passes
    /// to the other side. Nothing else changes.
    pub open spec fn after_move(self, from: (int, int), to: (int, int)) -> Position {
        Position {
            squares: self.squares.insert(to, self.squares[from]).insert(from, None),
            turn: self.turn.other(),
        }
    }
}

/// A chess board: an 8x8 grid of optional pieces, indexed by rank and then
/// by file, and the side to move.
#[derive(Clone, Copy, PartialEq, Eq, Debug)]
pub struct ChessBoard {
    pub board: [[Option<Piece>; 8]; 8],
    pub current_turn: Color,
}

impl View for ChessBoard {
    type V = Position;

    open spec fn view(&self) -> Position {
        Position {
            squares: Map::new(
                |s: (int, int)| on_board(s),
                |s: (int, int)| self.board[s.0][s.1],
            ),
            turn: self.current_turn,
        }
    }
}

/// The kind of the piece that starts on a file of a home rank.
fn back_rank_piece(file: usize) -> (kind: PieceType)
    requires
        file < 8,
    ensures
        kind == back_rank()[file as int],
{
    let order: [PieceType; 8] = [
        PieceType::Rook,
        PieceType::Knight,
        PieceType::Bishop,
        PieceType::Queen,
        PieceType::King,
        PieceType::Bishop,
        PieceType::Knight,
        PieceType::Rook,
    ];
    order[file]
}

impl ChessBoard {
    /// Sets up the board for a new game, White to move.
    pub fn new() -> (fresh: ChessBoard)
        ensures
            fresh@ == Position::initial(),
    {
        let mut board: [[Option<Piece>; 8]; 8] = [[None; 8]; 8];
        let mut i: usize = 0;
        while i < 8
            invariant
                i <= 8,
                forall|r: int, f: int|
                    0 <= r < 8 && 0 <= f < 8 ==> #[trigger] board[r][f] == (if f < i {
                        initial_piece((r, f))
                    } else {
                        None
                    }),
            decreases 8 - i,
        {
            let kind = back_rank_piece(i);
            board[0][i] = Some(Piece { piece_type: kind, color: Color::White });
            board[1][i] = Some(Piece { piece_type: PieceType::Pawn, color: Color::White });
            board[6][i] = Some(Piece { piece_type: PieceType::Pawn, color: Color::Black });
            board[7][i] = Some(Piece { piece_type: kind, color: Color::Black });
            i += 1;
        }
        let fresh = ChessBoard { board, current_turn: Color::White };
        assert(fresh@.squares =~= Position::initial().squares);
        fresh
    }

    /// The content of a square.
    pub fn piece_at(&self, square: (usize, usize)) -> (content: Option<Piece>)
        requires
            on_board(sq(square)),
        ensures
            content == self@.piece_at(sq(square)),
    {
        self.board[square.0][square.1]
    }

    /// The side to move.
    pub fn side_to_move(&self) -> (side: Color)
        ensures
            side == self@.turn,
    {
        self.current_turn
    }

    /// Moves whatever stands on `from` to `to` and passes the turn.
    ///
    /// The move is not checked against the rules: a piece on `to` is
    /// replaced, and moving from an empty square empties `to` as well.
    /// Callers decide legality first, or use
    /// [`make_move`](ChessBoard::make_move), which does both.
    pub fn apply_move(&mut self, from: (usize, usize), to: (usize, usize))
        requires
            on_board(sq(from)),
            on_board(sq(to)),
        ensures
            final(self)@ == old(self)@.after_move(sq(from), sq(to)),
    {
        self.board[to.0][to.1] = self.board[from.0][from.1];
        self.board[from.0][from.1] = None;
        self.current_turn = self.current_turn.opposite();
        assert(self@.squares =~= old(self)@.after_move(sq(from), sq(to)).squares);
    }
}

} // verus!
