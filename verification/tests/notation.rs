use chess::board::ChessBoard;
use chess::notation::parse_letters;
use chess::notation::parse_position;
use chess::notation::piece_symbol;
use chess::piece::Color;
use chess::piece::Piece;
use chess::piece::PieceType;

#[test]
fn parse_position_reads_file_then_rank() {
    assert_eq!(parse_position("a1"), Some((0, 0)));
    assert_eq!(parse_position("h1"), Some((0, 7)));
    assert_eq!(parse_position("a8"), Some((7, 0)));
    assert_eq!(parse_position("h8"), Some((7, 7)));
    assert_eq!(parse_position("e2"), Some((1, 4)));
    assert_eq!(parse_position("e4"), Some((3, 4)));
    assert_eq!(parse_position("b7"), Some((6, 1)));
}

#[test]
fn parse_position_reads_all_sixty_four_names() {
    let files = ['a', 'b', 'c', 'd', 'e', 'f', 'g', 'h'];
    let ranks = ['1', '2', '3', '4', '5', '6', '7', '8'];
    for (file, letter) in files.iter().enumerate() {
        for (rank, digit) in ranks.iter().enumerate() {
            let name = format!("{letter}{digit}");
            assert_eq!(parse_position(&name), Some((rank, file)), "{name}");
            assert_eq!(parse_letters(*letter, *digit), Some((rank, file)), "{name}");
        }
    }
}

#[test]
fn parse_position_refuses_other_lengths() {
    assert_eq!(parse_position(""), None);
    assert_eq!(parse_position("e"), None);
    assert_eq!(parse_position("2"), None);
    assert_eq!(parse_position("e22"), None);
    assert_eq!(parse_position("e2 "), None);
    assert_eq!(parse_position(" e2"), None);
    assert_eq!(parse_position("e2e4"), None);
}

#[test]
fn parse_position_refuses_letters_and_digits_out_of_range() {
    assert_eq!(parse_position("i2"), None);
    assert_eq!(parse_position("`2"), None);
    assert_eq!(parse_position("e0"), None);
    assert_eq!(parse_position("e9"), None);
    assert_eq!(parse_position("E2"), None);
    assert_eq!(parse_position("2e"), None);
    assert_eq!(parse_position("ee"), None);
    assert_eq!(parse_position("22"), None);
    assert_eq!(parse_position("e:"), None);
    assert_eq!(parse_letters('i', '1'), None);
    assert_eq!(parse_letters('a', '9'), None);
    assert_eq!(parse_letters('1', 'a'), None);
}

#[test]
fn parse_position_refuses_characters_outside_ascii() {
    // one character of two bytes
    assert_eq!(parse_position("\u{e9}"), None);
    // two characters, more than two bytes
    assert_eq!(parse_position("\u{e9}2"), None);
    assert_eq!(parse_position("e\u{662}"), None);
    assert_eq!(parse_position("\u{ff45}\u{ff12}"), None);
}

#[test]
fn piece_symbol_is_upper_case_for_white_and_lower_case_for_black() {
    let expected = [
        (PieceType::King, "K", "k"),
        (PieceType::Queen, "Q", "q"),
        (PieceType::Rook, "R", "r"),
        (PieceType::Bishop, "B", "b"),
        (PieceType::Knight, "N", "n"),
        (PieceType::Pawn, "P", "p"),
    ];
    for (piece_type, white, black) in expected {
        assert_eq!(piece_symbol(Some(Piece { piece_type, color: Color::White })), white);
        assert_eq!(piece_symbol(Some(Piece { piece_type, color: Color::Black })), black);
    }
    assert_eq!(piece_symbol(None), ".");
}

#[test]
fn to_text_draws_the_starting_position() {
    let expected = "  a b c d e f g h\n\
                    8 r n b q k b n r 8\n\
                    7 p p p p p p p p 7\n\
                    6 . . . . . . . . 6\n\
                    5 . . . . . . . . 5\n\
                    4 . . . . . . . . 4\n\
                    3 . . . . . . . . 3\n\
                    2 P P P P P P P P 2\n\
                    1 R N B Q K B N R 1\n\
                    \x20 a b c d e f g h\n";
    assert_eq!(ChessBoard::new().to_text(), expected);
}

#[test]
fn to_text_draws_an_empty_board() {
    let board = ChessBoard { board: [[None; 8]; 8], current_turn: Color::White };
    let text = board.to_text();
    let lines: Vec<&str> = text.lines().collect();
    assert_eq!(lines.len(), 10);
    assert_eq!(lines[0], "  a b c d e f g h");
    assert_eq!(lines[9], "  a b c d e f g h");
    for (i, line) in lines[1..9].iter().enumerate() {
        let digit = 8 - i;
        assert_eq!(*line, format!("{digit} . . . . . . . . {digit}"));
    }
    assert!(text.ends_with('\n'));
    assert_eq!(text.len(), 2 * 18 + 8 * 20);
}

#[test]
fn to_text_follows_the_moves() {
    let mut board = ChessBoard::new();
    assert!(board.make_move((1, 4), (3, 4)));
    assert!(board.make_move((7, 1), (5, 2)));
    let expected = "  a b c d e f g h\n\
                    8 r . b q k b n r 8\n\
                    7 p p p p p p p p 7\n\
                    6 . . n . . . . . 6\n\
                    5 . . . . . . . . 5\n\
                    4 . . . . P . . . 4\n\
                    3 . . . . . . . . 3\n\
                    2 P P P P . P P P 2\n\
                    1 R N B Q K B N R 1\n\
                    \x20 a b c d e f g h\n";
    assert_eq!(board.to_text(), expected);
}

#[test]
fn to_text_puts_each_square_in_its_place() {
    let mut board = ChessBoard { board: [[None; 8]; 8], current_turn: Color::Black };
    board.board[0][0] = Some(Piece { piece_type: PieceType::Rook, color: Color::White });
    board.board[7][7] = Some(Piece { piece_type: PieceType::King, color: Color::Black });
    board.board[2][5] = Some(Piece { piece_type: PieceType::Queen, color: Color::White });
    let text = board.to_text();
    let lines: Vec<&str> = text.lines().collect();
    assert_eq!(lines[1], "8 . . . . . . . k 8");
    assert_eq!(lines[6], "3 . . . . . Q . . 3");
    assert_eq!(lines[8], "1 R . . . . . . . 1");
}
