use chess::board::ChessBoard;
use chess::piece::Color;
use chess::piece::Piece;
use chess::piece::PieceType;
use chess::screen::cell_of;
use chess::screen::piece_image_name;
use chess::screen::square_at;
use chess::screen::square_rgb;
use chess::screen::Game;

const KINDS: [PieceType; 6] = [
    PieceType::King,
    PieceType::Queen,
    PieceType::Rook,
    PieceType::Bishop,
    PieceType::Knight,
    PieceType::Pawn,
];

#[test]
fn square_at_counts_ranks_from_the_bottom() {
    assert_eq!(square_at(0, 7), Some((0, 0)));
    assert_eq!(square_at(0, 0), Some((7, 0)));
    assert_eq!(square_at(7, 0), Some((7, 7)));
    assert_eq!(square_at(7, 7), Some((0, 7)));
    assert_eq!(square_at(4, 6), Some((1, 4)));
}

#[test]
fn square_at_sees_nothing_outside_the_board() {
    assert_eq!(square_at(8, 0), None);
    assert_eq!(square_at(0, 8), None);
    assert_eq!(square_at(8, 8), None);
    assert_eq!(square_at(usize::MAX, 3), None);
    assert_eq!(square_at(3, usize::MAX), None);
}

#[test]
fn cell_of_is_the_inverse_of_square_at() {
    for rank in 0..8 {
        for file in 0..8 {
            let (column, row) = cell_of((rank, file));
            assert_eq!((column, row), (file, 7 - rank));
            assert_eq!(square_at(column, row), Some((rank, file)));
        }
    }
}

#[test]
fn square_rgb_alternates() {
    assert_eq!(square_rgb((0, 0)), (238, 238, 210));
    assert_eq!(square_rgb((0, 1)), (118, 150, 86));
    assert_eq!(square_rgb((1, 0)), (118, 150, 86));
    assert_eq!(square_rgb((7, 7)), (238, 238, 210));
    for rank in 0..8_usize {
        for file in 0..8_usize {
            let expected = if (rank + file) % 2 == 0 { (238, 238, 210) } else { (118, 150, 86) };
            assert_eq!(square_rgb((rank, file)), expected);
        }
    }
}

#[test]
fn piece_image_name_is_side_then_kind() {
    let letters = ["k", "q", "r", "b", "n", "p"];
    for (piece_type, letter) in KINDS.iter().zip(letters) {
        let white = Piece { piece_type: *piece_type, color: Color::White };
        let black = Piece { piece_type: *piece_type, color: Color::Black };
        assert_eq!(piece_image_name(white), format!("w{letter}"));
        assert_eq!(piece_image_name(black), format!("b{letter}"));
    }
    assert_eq!(piece_image_name(Piece { piece_type: PieceType::Knight, color: Color::White }), "wn");
    assert_eq!(piece_image_name(Piece { piece_type: PieceType::Bishop, color: Color::Black }), "bb");
}

#[test]
fn new_game_has_nothing_selected() {
    let game = Game::new();
    assert_eq!(game.selected_square, None);
    assert_eq!(game.chess_board, ChessBoard::new());
}

#[test]
fn first_click_selects_a_piece() {
    let mut game = Game::new();
    game.click((4, 4));
    assert_eq!(game.selected_square, None);
    game.click((1, 4));
    assert_eq!(game.selected_square, Some((1, 4)));
    assert_eq!(game.chess_board, ChessBoard::new());
}

#[test]
fn first_click_selects_a_piece_of_either_side() {
    let mut game = Game::new();
    game.click((6, 0));
    assert_eq!(game.selected_square, Some((6, 0)));
    // it is White's turn: the black pawn does not move, and the selection is cleared
    game.click((5, 0));
    assert_eq!(game.selected_square, None);
    assert_eq!(game.chess_board, ChessBoard::new());
}

#[test]
fn second_click_makes_a_legal_move() {
    let mut game = Game::new();
    game.click((1, 4));
    game.click((3, 4));
    assert_eq!(game.selected_square, None);
    assert_eq!(game.chess_board.side_to_move(), Color::Black);
    assert_eq!(
        game.chess_board.piece_at((3, 4)),
        Some(Piece { piece_type: PieceType::Pawn, color: Color::White })
    );
    assert_eq!(game.chess_board.piece_at((1, 4)), None);
}

#[test]
fn second_click_on_another_piece_selects_it_when_no_move_is_made() {
    let mut game = Game::new();
    game.click((0, 4));
    assert_eq!(game.selected_square, Some((0, 4)));
    // the king cannot take its own queen: the queen is selected instead
    game.click((0, 3));
    assert_eq!(game.selected_square, Some((0, 3)));
    assert_eq!(game.chess_board, ChessBoard::new());
}

#[test]
fn second_click_on_the_same_square_keeps_it_selected() {
    let mut game = Game::new();
    game.click((1, 0));
    game.click((1, 0));
    assert_eq!(game.selected_square, Some((1, 0)));
    assert_eq!(game.chess_board, ChessBoard::new());
}

#[test]
fn second_click_on_an_empty_square_clears_the_selection_when_no_move_is_made() {
    let mut game = Game::new();
    game.click((1, 0));
    game.click((4, 3));
    assert_eq!(game.selected_square, None);
    assert_eq!(game.chess_board, ChessBoard::new());
}

#[test]
fn a_game_played_by_clicks() {
    let mut game = Game::new();
    for square in [(1, 4), (3, 4), (6, 3), (4, 3), (3, 4), (4, 3)] {
        game.click(square);
    }
    assert_eq!(game.selected_square, None);
    assert_eq!(game.chess_board.side_to_move(), Color::Black);
    assert_eq!(
        game.chess_board.piece_at((4, 3)),
        Some(Piece { piece_type: PieceType::Pawn, color: Color::White })
    );
    assert_eq!(game.chess_board.piece_at((3, 4)), None);
}
