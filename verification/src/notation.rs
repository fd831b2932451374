//! The board and its squares as text.
//!
//! A square is named by its file letter, `a` to `h`, and its rank digit,
//! `1` to `8`. The board is drawn as eight lines of symbols between two
//! lines of file letters, rank 8 on top, with upper-case letters for White's
//! pieces, lower-case letters for Black's and a dot for an empty square.

use vstd::prelude::*;
use vstd::string::StrSliceExecFns;
use vstd::string::StringExecFns;
use crate::board::coordinates;
use crate::board::on_board;
use crate::board::ChessBoard;
use crate::board::Position;
use crate::piece::Color;
use crate::piece::Piece;
use crate::piece::PieceType;

verus! {

/// The square that a file letter and a rank digit name, if they name one:
/// the letters `a` to `h` are files 0 to 7 and the digits `1` to `8` are
/// ranks 0 to 7.
pub open spec fn square_lettered(file: char, rank: char) -> Option<(int, int)> {
    if 'a' <= file <= 'h' && '1' <= rank <= '8' {
        Some((rank as int - '1' as int, file as int - 'a' as int))
    } else {
        None
    }
}

/// The square that a text names, if it names one: the text is a file letter
/// followed by a rank digit and nothing else.
pub open spec fn square_named(name: Seq<char>) -> Option<(int, int)> {
    if name.len() == 2 {
        square_lettered(name[0], name[1])
    } else {
        None
    }
}

/// A name names a square of the board, if any.
pub proof fn named_squares_are_on_board(name: Seq<char>)
    ensures
        square_named(name) matches Some(s) ==> on_board(s),
{
}

/// Reads a file letter and a rank digit as a (rank, file) pair.
pub fn parse_letters(file: char, rank: char) -> (square: Option<(usize, usize)>)
    ensures
        square == match square_lettered(file, rank) {
            Some(s) => Some(coordinates(s)),
            None => None,
        },
{
    if !('a' <= file && file <= 'h') || !('1' <= rank && rank <= '8') {
        return None;
    }
    let x: usize = (rank as u32 - '1' as u32) as usize;
    let y: usize = (file as u32 - 'a' as u32) as usize;
    Some((x, y))
}

/// Reads the name of a square, such as `e2`, as a (rank, file) pair.
/// Anything but a file letter followed by a rank digit is refused.
pub fn parse_position(input: &str) -> (square: Option<(usize, usize)>)
    ensures
        square == match square_named(input@) {
            Some(s) => Some(coordinates(s)),
            None => None,
        },
{
    if input.unicode_len() != 2 {
        return None;
    }
    parse_letters(input.get_char(0), input.get_char(1))
}

/// The symbol of a square's content.
pub open spec fn symbol(content: Option<Piece>) -> char {
    match content {
        None => '.',
        Some(piece) => match (piece.piece_type, piece.color) {
            (PieceType::King, Color::White) => 'K',
            (PieceType::King, Color::Black) => 'k',
            (PieceType::Queen, Color::White) => 'Q',
            (PieceType::Queen, Color::Black) => 'q',
            (PieceType::Rook, Color::White) => 'R',
            (PieceType::Rook, Color::Black) => 'r',
            (PieceType::Bishop, Color::White) => 'B',
            (PieceType::Bishop, Color::Black) => 'b',
            (PieceType::Knight, Color::White) => 'N',
            (PieceType::Knight, Color::Black) => 'n',
            (PieceType::Pawn, Color::White) => 'P',
            (PieceType::Pawn, Color::Black) => 'p',
        },
    }
}

/// The digit that labels a rank: `1` for rank 0, up to `8` for rank 7.
pub open spec fn rank_digit(rank: int) -> char {
    seq!['1', '2', '3', '4', '5', '6', '7', '8'][rank]
}

/// The line of file letters above and below the board.
pub open spec fn files_line() -> Seq<char> {
    seq![
        ' ', ' ', 'a', ' ', 'b', ' ', 'c', ' ', 'd', ' ', 'e', ' ', 'f', ' ', 'g', ' ', 'h', '\n',
    ]
}

/// The symbols of the first `files` squares of a rank, each followed by a
/// blank.
pub open spec fn rank_cells(position: Position, rank: int, files: int) -> Seq<char> {
    Seq::new(
        (2 * files) as nat,
        |k: int|
            if k % 2 == 0 {
                symbol(position.piece_at((rank, k / 2)))
            } else {
                ' '
            },
    )
}

/// The line of a rank: its digit, its eight squares, its digit again.
pub open spec fn rank_line(position: Position, rank: int) -> Seq<char> {
    seq![rank_digit(rank), ' '] + rank_cells(position, rank, 8) + seq![rank_digit(rank), '\n']
}

/// The lines of the ranks from rank 7 down to `rank`.
pub open spec fn ranks_down_to(position: Position, rank: int) -> Seq<char>
    decreases 8 - rank,
{
    if rank >= 8 {
        Seq::empty()
    } else {
        ranks_down_to(position, rank + 1) + rank_line(position, rank)
    }
}

/// The whole board as text: the file letters, the eight ranks from rank 7
/// down to rank 0, and the file letters again.
pub open spec fn board_text(position: Position) -> Seq<char> {
    files_line() + ranks_down_to(position, 0) + files_line()
}

/// The symbol of a square's content: a letter for a piece, upper case for
/// White and lower case for Black, and a dot for an empty square.
pub fn piece_symbol(content: Option<Piece>) -> (text: &'static str)
    ensures
        text@ == seq![symbol(content)],
{
    proof {
        reveal_strlit(".");
        reveal_strlit("K");
        reveal_strlit("k");
        reveal_strlit("Q");
        reveal_strlit("q");
        reveal_strlit("R");
        reveal_strlit("r");
        reveal_strlit("B");
        reveal_strlit("b");
        reveal_strlit("N");
        reveal_strlit("n");
        reveal_strlit("P");
        reveal_strlit("p");
    }
    let text = match content {
        Some(piece) => match (piece.piece_type, piece.color) {
            (PieceType::King, Color::White) => "K",
            (PieceType::King, Color::Black) => "k",
            (PieceType::Queen, Color::White) => "Q",
            (PieceType::Queen, Color::Black) => "q",
            (PieceType::Rook, Color::White) => "R",
            (PieceType::Rook, Color::Black) => "r",
            (PieceType::Bishop, Color::White) => "B",
            (PieceType::Bishop, Color::Black) => "b",
            (PieceType::Knight, Color::White) => "N",
            (PieceType::Knight, Color::Black) => "n",
            (PieceType::Pawn, Color::White) => "P",
            (PieceType::Pawn, Color::Black) => "p",
        },
        None => ".",
    };
    assert(text@ =~= seq![symbol(content)]);
    text
}

/// The digit that labels a rank.
fn rank_label(rank: usize) -> (text: &'static str)
    requires
        rank < 8,
    ensures
        text@ == seq![rank_digit(rank as int)],
{
    proof {
        reveal_strlit("1");
        reveal_strlit("2");
        reveal_strlit("3");
        reveal_strlit("4");
        reveal_strlit("5");
        reveal_strlit("6");
        reveal_strlit("7");
        reveal_strlit("8");
    }
    let labels: [&'static str; 8] = ["1", "2", "3", "4", "5", "6", "7", "8"];
    let text = labels[rank];
    assert(text@ =~= seq![rank_digit(rank as int)]);
    text
}

impl ChessBoard {
    /// The line of one rank.
    fn rank_text(&self, rank: usize) -> (line: String)
        requires
            rank < 8,
        ensures
            line@ == rank_line(self@, rank as int),
    {
        proof {
            reveal_strlit(" ");
            reveal_strlit("\n");
        }
        let mut line = String::from_str(rank_label(rank));
        line.append(" ");
        let ghost head = line@;
        assert(head =~= seq![rank_digit(rank as int), ' ']);
        let mut file: usize = 0;
        while file < 8
            invariant
                rank < 8,
                file <= 8,
                " "@ == seq![' '],
                line@ == head + rank_cells(self@, rank as int, file as int),
            decreases 8 - file,
        {
            line.append(piece_symbol(self.board[rank][file]));
            line.append(" ");
            file += 1;
            assert(line@ =~= head + rank_cells(self@, rank as int, file as int));
        }
        line.append(rank_label(rank));
        line.append("\n");
        assert(line@ =~= rank_line(self@, rank as int));
        line
    }

    /// Draws the board as text, rank 8 on top, between two lines of file
    /// letters.
    pub fn to_text(&self) -> (text: String)
        ensures
            text@ == board_text(self@),
    {
        proof {
            reveal_strlit("  a b c d e f g h\n");
        }
        assert("  a b c d e f g h\n"@ =~= files_line());
        let mut text = String::from_str("  a b c d e f g h\n");
        let mut rank: usize = 8;
        while rank > 0
            invariant
                rank <= 8,
                text@ == files_line() + ranks_down_to(self@, rank as int),
            decreases rank,
        {
            rank -= 1;
            let line = self.rank_text(rank);
            text.append(line.as_str());
            assert(text@ =~= files_line() + ranks_down_to(self@, rank as int));
        }
        text.append("  a b c d e f g h\n");
        text
    }
}

} // verus!
