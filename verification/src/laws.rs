//! Laws of the rules: facts that hold of every position and every move,
//! proved from the definitions in [`board`](crate::board) and
//! [`rules`](crate::rules).

use vstd::prelude::*;
use crate::board::back_rank;
use crate::board::coordinates;
use crate::board::on_board;
use crate::board::sq;
use crate::board::ChessBoard;
use crate::board::Position;
use crate::piece::Color;
use crate::piece::Piece;
use crate::piece::PieceType;
use crate::rules::knight_shape;

verus! {

/// Every board gives a content to each of the 64 squares and to nothing
/// else.
pub proof fn every_board_is_total(board: ChessBoard)
    ensures
        board@.total(),
{
}

/// A board is what its position says: two boards with the same position
/// are the same board.
pub proof fn boards_with_one_position_are_equal(a: ChessBoard, b: ChessBoard)
    requires
        a@ == b@,
    ensures
        a == b,
{
    assert forall|r: int| 0 <= r < 8 implies a.board[r] == b.board[r] by {
        assert forall|f: int| 0 <= f < 8 implies a.board[r][f] == b.board[r][f] by {
            assert(a@.squares[(r, f)] == a.board[r][f]);
            assert(b@.squares[(r, f)] == b.board[r][f]);
        }
        assert(a.board[r] =~= b.board[r]);
    }
    assert(a.board =~= b.board);
}

/// The executable and the mathematical form of a square of the board name
/// the same square.
pub proof fn squares_convert_both_ways(square: (int, int), pair: (usize, usize))
    ensures
        on_board(square) ==> sq(coordinates(square)) == square,
        coordinates(sq(pair)) == pair,
{
}

/// The starting position is total and White moves first. Pawns stand on
/// every square of ranks 1 and 6 and nowhere else, White's on rank 1 and
/// Black's on rank 6. Ranks 0 and 7 hold, from the a-file to the h-file, a
/// rook, knight, bishop, queen, king, bishop, knight and rook, White's on
/// rank 0 and Black's on rank 7. The four ranks in between are empty.
pub proof fn initial_position_layout()
    ensures
        Position::initial().total(),
        Position::initial().turn == Color::White,
        forall|s: (int, int)|
            on_board(s) ==> ((s.0 == 1 || s.0 == 6) <==> (#[trigger] Position::initial().piece_at(
                s,
            ) matches Some(p) && p.piece_type == PieceType::Pawn)),
        forall|f: int|
            0 <= f < 8 ==> #[trigger] Position::initial().piece_at((1, f)) == Some(
                Piece { piece_type: PieceType::Pawn, color: Color::White },
            ),
        forall|f: int|
            0 <= f < 8 ==> #[trigger] Position::initial().piece_at((6, f)) == Some(
                Piece { piece_type: PieceType::Pawn, color: Color::Black },
            ),
        forall|f: int|
            0 <= f < 8 ==> #[trigger] Position::initial().piece_at((0, f)) == Some(
                Piece { piece_type: back_rank()[f], color: Color::White },
            ),
        forall|f: int|
            0 <= f < 8 ==> #[trigger] Position::initial().piece_at((7, f)) == Some(
                Piece { piece_type: back_rank()[f], color: Color::Black },
            ),
        forall|s: (int, int)|
            on_board(s) && 2 <= s.0 <= 5 ==> #[trigger] Position::initial().piece_at(s) is None,
        back_rank().len() == 8,
        back_rank()[0] == PieceType::Rook,
        back_rank()[1] == PieceType::Knight,
        back_rank()[2] == PieceType::Bishop,
        back_rank()[3] == PieceType::Queen,
        back_rank()[4] == PieceType::King,
        back_rank()[5] == PieceType::Bishop,
        back_rank()[6] == PieceType::Knight,
        back_rank()[7] == PieceType::Rook,
{
}

/// The two sides are each other's opposite.
pub proof fn other_side_is_an_involution(side: Color)
    ensures
        side.other() != side,
        side.other().other() == side,
{
}

/// A move passes the turn to the other side, whatever is moved, and a
/// second move passes it back.
pub proof fn move_passes_the_turn(
    position: Position,
    from: (int, int),
    to: (int, int),
    reply_from: (int, int),
    reply_to: (int, int),
)
    ensures
        position.after_move(from, to).turn == position.turn.other(),
        position.after_move(from, to).turn != position.turn,
        position.after_move(from, to).after_move(reply_from, reply_to).turn == position.turn,
{
}

/// An attempt to move changes the side to move exactly when the move is
/// legal: a legal move passes the turn, and an illegal one leaves the whole
/// position as it was.
pub proof fn turn_changes_only_by_legal_moves(position: Position, from: (int, int), to: (int, int))
    ensures
        position.legal_move(from, to) ==> position.play(from, to).turn == position.turn.other(),
        !position.legal_move(from, to) ==> position.play(from, to) == position,
        position.play(from, to).turn != position.turn <==> position.legal_move(from, to),
{
}

/// A move changes the two squares it names and no other: the destination
/// takes what stood on the origin, and the origin is left empty.
pub proof fn move_changes_two_squares(position: Position, from: (int, int), to: (int, int))
    requires
        position.total(),
        on_board(from),
        on_board(to),
    ensures
        position.after_move(from, to).total(),
        position.after_move(from, to).piece_at(from) is None,
        from != to ==> position.after_move(from, to).piece_at(to) == position.piece_at(from),
        forall|s: (int, int)|
            s != from && s != to ==> #[trigger] position.after_move(from, to).piece_at(s)
                == position.piece_at(s),
{
}

/// No piece captures a piece of its own side.
pub proof fn no_self_capture(position: Position, from: (int, int), to: (int, int))
    requires
        position.piece_at(from) is Some,
        position.piece_at(to) is Some,
        position.piece_at(to)->0.color == position.piece_at(from)->0.color,
    ensures
        !position.legal_move(from, to),
{
}

/// No move ends on the square it starts from.
pub proof fn no_null_move(position: Position, square: (int, int))
    ensures
        !position.legal_move(square, square),
{
}

/// Only the side to move moves: a move from an empty square, or from a
/// square that holds a piece of the side that is not to move, is illegal.
pub proof fn only_side_to_move_moves(position: Position, from: (int, int), to: (int, int))
    ensures
        position.piece_at(from) is None ==> !position.legal_move(from, to),
        position.piece_at(from) matches Some(piece) && piece.color != position.turn
            ==> !position.legal_move(from, to),
{
}

/// The squares of the board that a knight on `from` may move to, as far as
/// the shape of the move goes.
pub open spec fn knight_targets(from: (int, int)) -> Set<(int, int)> {
    Set::new(|to: (int, int)| on_board(to) && knight_shape(from, to))
}

/// The eight jumps of a knight: a move has the knight's shape exactly when
/// it is one of them.
pub proof fn knight_shape_is_eight_jumps(from: (int, int), to: (int, int))
    ensures
        knight_shape(from, to) <==> {
            ||| to == (from.0 + 2, from.1 + 1)
            ||| to == (from.0 + 2, from.1 - 1)
            ||| to == (from.0 - 2, from.1 + 1)
            ||| to == (from.0 - 2, from.1 - 1)
            ||| to == (from.0 + 1, from.1 + 2)
            ||| to == (from.0 + 1, from.1 - 2)
            ||| to == (from.0 - 1, from.1 + 2)
            ||| to == (from.0 - 1, from.1 - 2)
        },
{
}

/// A knight at least two squares away from every edge has exactly eight
/// squares to move to.
pub proof fn central_knight_has_eight_targets(from: (int, int))
    requires
        2 <= from.0 <= 5,
        2 <= from.1 <= 5,
    ensures
        knight_targets(from).finite(),
        knight_targets(from).len() == 8,
{
    let jumps = set![
        (from.0 + 2, from.1 + 1),
        (from.0 + 2, from.1 - 1),
        (from.0 - 2, from.1 + 1),
        (from.0 - 2, from.1 - 1),
        (from.0 + 1, from.1 + 2),
        (from.0 + 1, from.1 - 2),
        (from.0 - 1, from.1 + 2),
        (from.0 - 1, from.1 - 2),
    ];
    assert forall|to: (int, int)| knight_targets(from).contains(to) <==> jumps.contains(to) by {
        knight_shape_is_eight_jumps(from, to);
    }
    assert(knight_targets(from) =~= jumps);
}

/// A pawn's single step forward depends on the destination alone: it is
/// allowed exactly when the square ahead is empty.
pub proof fn pawn_single_step_needs_empty_square(
    position: Position,
    from: (int, int),
    color: Color,
)
    ensures
        position.pawn_move(from, (from.0 + color.forward(), from.1), color) <==> position.piece_at(
            (from.0 + color.forward(), from.1),
        ) is None,
{
}

/// A pawn's double step forward is allowed exactly when the pawn stands on
/// its starting rank and both the square it passes and the square it lands
/// on are empty. In particular a piece right in front of a pawn blocks both
/// its single and its double step.
pub proof fn pawn_double_step_needs_clear_path(
    position: Position,
    from: (int, int),
    color: Color,
)
    ensures
        position.pawn_move(from, (from.0 + 2 * color.forward(), from.1), color) <==> {
            &&& from.0 == color.pawn_rank()
            &&& position.piece_at((from.0 + color.forward(), from.1)) is None
            &&& position.piece_at((from.0 + 2 * color.forward(), from.1)) is None
        },
        position.piece_at((from.0 + color.forward(), from.1)) is Some ==> {
            &&& !position.pawn_move(from, (from.0 + color.forward(), from.1), color)
            &&& !position.pawn_move(from, (from.0 + 2 * color.forward(), from.1), color)
        },
{
}

/// For a pawn of the side to move, advancing is legal exactly when the way
/// is clear: one step when the square ahead is empty, two steps when the
/// pawn stands on its starting rank and both squares ahead are empty.
pub proof fn pawn_advances_over_empty_squares(position: Position, from: (int, int))
    requires
        position.piece_at(from) is Some,
        position.piece_at(from)->0.piece_type == PieceType::Pawn,
        position.piece_at(from)->0.color == position.turn,
    ensures
        ({
            let step = position.turn.forward();
            let one = (from.0 + step, from.1);
            let two = (from.0 + 2 * step, from.1);
            &&& position.legal_move(from, one) <==> position.piece_at(one) is None
            &&& position.legal_move(from, two) <==> {
                &&& from.0 == position.turn.pawn_rank()
                &&& position.piece_at(one) is None
                &&& position.piece_at(two) is None
            }
        }),
{
}

} // verus!
