//! Lines that a player types: `quit`, or a move as two square names, such
//! as `e2 e4`.

use vstd::prelude::*;
use crate::board::coordinates;
use crate::board::on_board;
use crate::board::sq;
use crate::board::ChessBoard;
use crate::board::Position;
use crate::notation::parse_letters;
use crate::notation::square_named;

verus! {

/// White space: the characters that separate the words of a line. These
/// are the characters with the Unicode property White_Space.
pub open spec fn is_space(c: char) -> bool {
    let code = c as int;
    ||| 0x09 <= code <= 0x0D
    ||| code == 0x20
    ||| code == 0x85
    ||| code == 0xA0
    ||| code == 0x1680
    ||| 0x2000 <= code <= 0x200A
    ||| code == 0x2028
    ||| code == 0x2029
    ||| code == 0x202F
    ||| code == 0x205F
    ||| code == 0x3000
}

/// The length of the longest prefix of `text` that is all white space (if
/// `spaces`) or free of white space (if not).
pub open spec fn run_len(text: Seq<char>, spaces: bool) -> nat
    decreases text.len(),
{
    if text.len() > 0 && is_space(text[0]) == spaces {
        1 + run_len(text.drop_first(), spaces)
    } else {
        0
    }
}

/// The words of a text: its longest runs of characters other than white
/// space, in order.
pub open spec fn words(text: Seq<char>) -> Seq<Seq<char>>
    decreases text.len(),
    via words_decreases
{
    let rest = text.skip(run_len(text, true) as int);
    let n = run_len(rest, false) as int;
    if n == 0 {
        Seq::empty()
    } else {
        seq![rest.take(n)] + words(rest.skip(n))
    }
}

/// What is left after the first word is shorter than the text.
#[via_fn]
proof fn words_decreases(text: Seq<char>) {
    run_len_spans(text, true);
    run_len_spans(text.skip(run_len(text, true) as int), false);
}

/// A run lies within the text, every character of it is of the run's kind,
/// and the character after it, if there is one, is not.
pub proof fn run_len_spans(text: Seq<char>, spaces: bool)
    ensures
        run_len(text, spaces) <= text.len(),
        forall|i: int| 0 <= i < run_len(text, spaces) ==> is_space(#[trigger] text[i]) == spaces,
        run_len(text, spaces) < text.len() ==> is_space(text[run_len(text, spaces) as int])
            != spaces,
    decreases text.len(),
{
    if text.len() > 0 && is_space(text[0]) == spaces {
        let tail = text.drop_first();
        run_len_spans(tail, spaces);
        assert forall|i: int| 0 <= i < run_len(text, spaces) implies is_space(#[trigger] text[i])
            == spaces by {
            if i > 0 {
                assert(text[i] == tail[i - 1]);
            }
        }
        if run_len(text, spaces) < text.len() {
            assert(text[run_len(text, spaces) as int] == tail[run_len(tail, spaces) as int]);
        }
    }
}

/// A prefix of characters of one kind that ends the text, or is followed by
/// a character of the other kind, is the run.
proof fn run_len_is(text: Seq<char>, spaces: bool, n: int)
    requires
        0 <= n <= text.len(),
        forall|i: int| 0 <= i < n ==> is_space(#[trigger] text[i]) == spaces,
        n < text.len() ==> is_space(text[n]) != spaces,
    ensures
        run_len(text, spaces) == n,
    decreases text.len(),
{
    if n > 0 {
        let tail = text.drop_first();
        assert forall|i: int| 0 <= i < n - 1 implies is_space(#[trigger] tail[i]) == spaces by {
            assert(tail[i] == text[i + 1]);
        }
        if n - 1 < tail.len() {
            assert(tail[n - 1] == text[n]);
        }
        run_len_is(tail, spaces, n - 1);
    }
}

/// Every word has at least one character, and none of its characters is
/// white space.
pub proof fn words_hold_no_space(text: Seq<char>)
    ensures
        forall|i: int| 0 <= i < words(text).len() ==> (#[trigger] words(text)[i]).len() > 0,
        forall|i: int, j: int|
            0 <= i < words(text).len() && 0 <= j < words(text)[i].len() ==> !is_space(
                #[trigger] words(text)[i][j],
            ),
    decreases text.len(),
{
    run_len_spans(text, true);
    let rest = text.skip(run_len(text, true) as int);
    run_len_spans(rest, false);
    let n = run_len(rest, false) as int;
    if n > 0 {
        let first = rest.take(n);
        let others = words(rest.skip(n));
        words_hold_no_space(rest.skip(n));
        assert(words(text) == seq![first] + others);
        assert forall|j: int| 0 <= j < first.len() implies !is_space(#[trigger] first[j]) by {
            assert(first[j] == rest[j]);
        }
        assert forall|i: int| 0 <= i < words(text).len() implies (#[trigger] words(text)[i]).len()
            > 0 && (forall|j: int|
            0 <= j < words(text)[i].len() ==> !is_space(#[trigger] words(text)[i][j])) by {
            if i > 0 {
                assert(words(text)[i] == others[i - 1]);
            }
        }
    }
}

/// What a line asks for.
#[derive(Copy, Clone, PartialEq, Eq, Debug)]
pub enum Command {
    /// The line is the word `quit`.
    Quit,
    /// The line names two squares: move from the first to the second.
    Move((usize, usize), (usize, usize)),
    /// The line is not made of two words.
    BadFormat,
    /// The first word names no square.
    BadFrom,
    /// The second word names no square.
    BadTo,
}

/// The word that ends a game.
pub open spec fn quit_word() -> Seq<char> {
    seq!['q', 'u', 'i', 't']
}

/// What a line asks for, by its words: the single word `quit` ends the
/// game; two words are the names of the origin and the destination of a
/// move; any other number of words is refused. White space around and
/// between the words does not count.
pub open spec fn command_of(line: Seq<char>) -> Command {
    let found = words(line);
    if found.len() == 1 && found[0] == quit_word() {
        Command::Quit
    } else if found.len() != 2 {
        Command::BadFormat
    } else {
        match (square_named(found[0]), square_named(found[1])) {
            (None, _) => Command::BadFrom,
            (Some(_), None) => Command::BadTo,
            (Some(from), Some(to)) => Command::Move(coordinates(from), coordinates(to)),
        }
    }
}

/// The squares of a move that a line asks for are on the board.
pub proof fn commands_name_squares_of_the_board(line: Seq<char>)
    ensures
        command_of(line) matches Command::Move(from, to) ==> on_board(sq(from)) && on_board(
            sq(to),
        ),
{
}

/// What became of a line.
#[derive(Copy, Clone, PartialEq, Eq, Structural, Debug)]
pub enum Outcome {
    /// The player asked to end the game.
    Quit,
    /// The move was legal and has been made.
    Moved,
    /// The line was not made of two words.
    InvalidFormat,
    /// The first word named no square.
    InvalidFrom,
    /// The second word named no square.
    InvalidTo,
    /// The line named a move that the rules do not allow.
    InvalidMove,
}

impl Position {
    /// What becomes of a command on this position. A move is made if it is
    /// legal and refused if it is not; the other commands leave the board
    /// alone.
    pub open spec fn outcome_of(self, command: Command) -> Outcome {
        match command {
            Command::Quit => Outcome::Quit,
            Command::BadFormat => Outcome::InvalidFormat,
            Command::BadFrom => Outcome::InvalidFrom,
            Command::BadTo => Outcome::InvalidTo,
            Command::Move(from, to) => if self.legal_move(sq(from), sq(to)) {
                Outcome::Moved
            } else {
                Outcome::InvalidMove
            },
        }
    }

    /// The position after a command.
    pub open spec fn after_command(self, command: Command) -> Position {
        match command {
            Command::Move(from, to) => self.play(sq(from), sq(to)),
            _ => self,
        }
    }
}

/// A command changes the position only by a legal move, which passes the
/// turn; after any other outcome the position, and with it the side to
/// move, is what it was.
pub proof fn only_moves_change_the_position(position: Position, command: Command)
    ensures
        position.outcome_of(command) == Outcome::Moved ==> position.after_command(command).turn
            == position.turn.other(),
        position.outcome_of(command) != Outcome::Moved ==> position.after_command(command)
            == position,
{
}

/// Decides whether a character is white space.
fn is_blank(c: char) -> (blank: bool)
    ensures
        blank == is_space(c),
{
    let code: u32 = c as u32;
    (0x09 <= code && code <= 0x0D) || code == 0x20 || code == 0x85 || code == 0xA0 || code
        == 0x1680 || (0x2000 <= code && code <= 0x200A) || code == 0x2028 || code == 0x2029
        || code == 0x202F || code == 0x205F || code == 0x3000
}

/// The characters of a text.
fn chars_of(text: &str) -> (chars: Vec<char>)
    ensures
        chars@ == text@,
{
    let mut chars: Vec<char> = Vec::new();
    for c in it: text.chars()
        invariant
            chars@ == it.seq().take(it.index() as int),
            it.seq() == text@,
    {
        chars.push(c);
    }
    chars
}

/// The words found so far, each as a sequence of characters.
spec fn word_views(found: Seq<Vec<char>>) -> Seq<Seq<char>> {
    Seq::new(found.len(), |i: int| found[i]@)
}

/// Splits a text into its words.
fn split_words(text: &Vec<char>) -> (found: Vec<Vec<char>>)
    ensures
        word_views(found@) == words(text@),
{
    let n: usize = text.len();
    let mut found: Vec<Vec<char>> = Vec::new();
    let mut start: usize = 0;
    assert(text@.skip(0) =~= text@);
    assert(word_views(found@) =~= Seq::<Seq<char>>::empty());
    loop
        invariant_except_break
            start <= n,
            words(text@) == word_views(found@) + words(text@.skip(start as int)),
        invariant
            n == text@.len(),
        ensures
            word_views(found@) == words(text@),
        decreases n - start,
    {
        let ghost pending = text@.skip(start as int);
        let mut first: usize = start;
        while first < n && is_blank(text[first])
            invariant
                n == text@.len(),
                start <= first <= n,
                forall|i: int| start <= i < first ==> is_space(#[trigger] text@[i]),
            decreases n - first,
        {
            first += 1;
        }
        let ghost rest = text@.skip(first as int);
        proof {
            assert forall|i: int| 0 <= i < first - start implies is_space(#[trigger] pending[i])
                == true by {
                assert(pending[i] == text@[start + i]);
            }
            run_len_is(pending, true, first - start);
            assert(pending.skip(first - start) =~= rest);
        }
        let mut word: Vec<char> = Vec::new();
        let mut end: usize = first;
        while end < n && !is_blank(text[end])
            invariant
                n == text@.len(),
                first <= end <= n,
                word@ == text@.subrange(first as int, end as int),
                forall|i: int| first <= i < end ==> !is_space(#[trigger] text@[i]),
            decreases n - end,
        {
            word.push(text[end]);
            end += 1;
            assert(word@ =~= text@.subrange(first as int, end as int));
        }
        proof {
            assert forall|i: int| 0 <= i < end - first implies is_space(#[trigger] rest[i])
                == false by {
                assert(rest[i] == text@[first + i]);
            }
            run_len_is(rest, false, end - first);
            assert(rest.take(end - first) =~= word@);
            assert(rest.skip(end - first) =~= text@.skip(end as int));
        }
        if end == first {
            assert(words(pending) =~= Seq::<Seq<char>>::empty());
            assert(word_views(found@) =~= words(text@));
            break;
        }
        let ghost before = word_views(found@);
        found.push(word);
        assert(word_views(found@) =~= before + seq![word@]);
        assert(words(text@) =~= word_views(found@) + words(text@.skip(end as int)));
        start = end;
    }
    found
}

/// Decides whether a word is `quit`.
fn is_quit(word: &Vec<char>) -> (quit: bool)
    ensures
        quit == (word@ == quit_word()),
{
    let quit = word.len() == 4 && word[0] == 'q' && word[1] == 'u' && word[2] == 'i' && word[3]
        == 't';
    assert(quit == (word@ =~= quit_word()));
    quit
}

/// Reads a word as the name of a square.
fn square_of_word(word: &Vec<char>) -> (square: Option<(usize, usize)>)
    ensures
        square == match square_named(word@) {
            Some(s) => Some(coordinates(s)),
            None => None,
        },
{
    if word.len() != 2 {
        return None;
    }
    parse_letters(word[0], word[1])
}

/// Reads a line that a player typed.
pub fn parse_command(line: &str) -> (command: Command)
    ensures
        command == command_of(line@),
{
    let chars = chars_of(line);
    let found = split_words(&chars);
    assert(forall|i: int| 0 <= i < found@.len() ==> found@[i]@ == #[trigger] word_views(found@)[i]);
    if found.len() == 1 && is_quit(&found[0]) {
        return Command::Quit;
    }
    if found.len() != 2 {
        return Command::BadFormat;
    }
    let from = match square_of_word(&found[0]) {
        Some(square) => square,
        None => {
            return Command::BadFrom;
        },
    };
    let to = match square_of_word(&found[1]) {
        Some(square) => square,
        None => {
            return Command::BadTo;
        },
    };
    Command::Move(from, to)
}

impl ChessBoard {
    /// Takes a line that a player typed: reads it as a command and, if it
    /// is a legal move, makes the move. Every other line leaves the board as
    /// it was.
    pub fn enter(&mut self, line: &str) -> (outcome: Outcome)
        ensures
            outcome == old(self)@.outcome_of(command_of(line@)),
            final(self)@ == old(self)@.after_command(command_of(line@)),
            outcome != Outcome::Moved ==> *final(self) == *old(self),
    {
        match parse_command(line) {
            Command::Quit => Outcome::Quit,
            Command::BadFormat => Outcome::InvalidFormat,
            Command::BadFrom => Outcome::InvalidFrom,
            Command::BadTo => Outcome::InvalidTo,
            Command::Move(from, to) => {
                proof {
                    commands_name_squares_of_the_board(line@);
                }
                if self.make_move(from, to) {
                    Outcome::Moved
                } else {
                    Outcome::InvalidMove
                }
            },
        }
    }
}

} // verus!
