//! Parsing a line of player input into a move on the 3x3 grid.
//!
//! A move names a row by one of the letters `a`, `b`, `c` and a column by one
//! of the digits `1`, `2`, `3`, in either order. Blanks and whatever else is
//! neither a letter nor a digit may stand around them. The nine moves number
//! the cells of the grid row by row: `a1` is cell 0 and `c3` is cell 8.

use crate::text::{alphabetic, is_alphabetic, push_char};
use crate::win::cell_at;
use vstd::prelude::*;
use vstd::std_specs::iter::IteratorSpec;

verus! {

/// Why a line of input is not a move.
#[derive(Clone, Copy, Debug, PartialEq, Eq, Structural)]
pub enum MoveError {
    /// The column digit, given here as typed, is greater than 3.
    ColumnOutOfBounds(char),
    /// The letter, given here as typed, is none of `a`, `b`, `c`.
    InvalidRow(char),
    /// The line lacks a row letter or a column digit. The player is told
    /// of an invalid letter in both cases.
    InvalidInput,
}

impl MoveError {
    /// The message shown to the player. It names the offending character
    /// where there is one.
    pub open spec fn text(self) -> Seq<char> {
        match self {
            MoveError::ColumnOutOfBounds(digit) => "Invalid column: "@.push(digit)
                + " is out of bounds.\nShould be between 1 and 3."@,
            MoveError::InvalidRow(letter) => "Invalid row: '"@.push(letter)
                + "' - Should be a, b or c."@,
            MoveError::InvalidInput => "Invalid letter."@,
        }
    }

    /// The message shown to the player.
    pub fn message(&self) -> (msg: String)
        ensures
            msg@ == self.text(),
    {
        match self {
            MoveError::ColumnOutOfBounds(digit) => {
                let mut msg = String::from_str("Invalid column: ");
                push_char(&mut msg, *digit);
                msg.append(" is out of bounds.\nShould be between 1 and 3.");
                msg
            },
            MoveError::InvalidRow(letter) => {
                let mut msg = String::from_str("Invalid row: '");
                push_char(&mut msg, *letter);
                msg.append("' - Should be a, b or c.");
                msg
            },
            MoveError::InvalidInput => String::from_str("Invalid letter."),
        }
    }
}

/// The message for a column out of bounds or an invalid row contains the
/// character that was refused.
pub proof fn lemma_text_names_offender(error: MoveError)
    ensures
        error matches MoveError::ColumnOutOfBounds(digit) ==> error.text().contains(digit),
        error matches MoveError::InvalidRow(letter) ==> error.text().contains(letter),
{
    match error {
        MoveError::ColumnOutOfBounds(digit) => {
            assert(error.text()["Invalid column: "@.len() as int] == digit);
        },
        MoveError::InvalidRow(letter) => {
            assert(error.text()["Invalid row: '"@.len() as int] == letter);
        },
        MoveError::InvalidInput => {},
    }
}

/// A move: the row letter and column digit as read, and the cell they name.
///
/// While a line is being scanned the same record holds what has been read so
/// far: `coord_letter` is a blank until a row letter is read and
/// `coord_digit` is 0 until a column digit is read.
#[derive(Clone, Copy, Debug, PartialEq, Eq, Structural)]
pub struct PlayerMove {
    pub coord_letter: char,
    pub coord_digit: i32,
    pub square_val: usize,
}

/// `c` is one of the decimal digits `0` to `9`.
pub open spec fn is_digit(c: char) -> bool {
    '0' <= c <= '9'
}

/// The number that the decimal digit `c` stands for.
pub open spec fn digit_value(c: char) -> int {
    c as int - '0' as int
}

/// `c` names a row of the grid.
pub open spec fn is_row_letter(c: char) -> bool {
    c == 'a' || c == 'b' || c == 'c'
}

/// `d` numbers a column of the grid.
pub open spec fn is_column(d: int) -> bool {
    1 <= d <= 3
}

/// The cell in row `letter` and column `digit`, counting row by row from 0.
pub open spec fn cell_index(letter: char, digit: int) -> int {
    if letter == 'a' {
        digit - 1
    } else if letter == 'b' {
        digit + 2
    } else {
        digit + 5
    }
}

/// The record after `c` has been read into `point`, or the error that `c`
/// raises. `letter` says whether `c` is alphabetic.
///
/// Blanks are skipped. A digit is taken as the column if none has been taken
/// yet, and is an error if it exceeds 3; a `0` leaves the column open. Any
/// other character matters only while the row is open: `a`, `b` or `c` is
/// taken as the row, any other letter is an error, and the rest is skipped.
pub open spec fn after_char(point: PlayerMove, c: char, letter: bool) -> Result<
    PlayerMove,
    MoveError,
> {
    if c == ' ' {
        Ok(point)
    } else if is_digit(c) {
        if point.coord_digit != 0 {
            Ok(point)
        } else if digit_value(c) > 3 {
            Err(MoveError::ColumnOutOfBounds(c))
        } else {
            Ok(PlayerMove { coord_digit: digit_value(c) as i32, ..point })
        }
    } else if point.coord_letter != ' ' {
        Ok(point)
    } else if is_row_letter(c) {
        Ok(PlayerMove { coord_letter: c, ..point })
    } else if letter {
        Err(MoveError::InvalidRow(c))
    } else {
        Ok(point)
    }
}

/// The record after the characters of `s` have been read into `point` from
/// left to right, stopping early once both coordinates are known, or the
/// first error raised on the way.
pub open spec fn after_text(point: PlayerMove, s: Seq<char>) -> Result<PlayerMove, MoveError>
    decreases s.len(),
{
    if s.len() == 0 || point.spec_is_complete() {
        Ok(point)
    } else {
        match after_char(point, s[0], alphabetic(s[0])) {
            Ok(next) => after_text(next, s.drop_first()),
            Err(e) => Err(e),
        }
    }
}

/// The move that a line of input stands for, or the reason it stands for none.
pub open spec fn parse_move(s: Seq<char>) -> Result<PlayerMove, MoveError> {
    match after_text(PlayerMove::spec_blank(), s) {
        Ok(point) => point.located(),
        Err(e) => Err(e),
    }
}

/// A blank put anywhere into the text does not change what is read from it.
pub proof fn lemma_after_text_skips_blank(point: PlayerMove, s: Seq<char>, at: int)
    requires
        0 <= at <= s.len(),
    ensures
        after_text(point, s.insert(at, ' ')) == after_text(point, s),
    decreases at,
{
    let padded = s.insert(at, ' ');
    if !point.spec_is_complete() {
        if at == 0 {
            assert(padded.drop_first() =~= s);
        } else {
            assert(padded.drop_first() =~= s.drop_first().insert(at - 1, ' '));
            if let Ok(next) = after_char(point, s[0], alphabetic(s[0])) {
                lemma_after_text_skips_blank(next, s.drop_first(), at - 1);
            }
        }
    }
}

/// Once both coordinates have been read from a text, whatever follows it is
/// not read.
pub proof fn lemma_after_text_stops_when_complete(point: PlayerMove, s: Seq<char>, tail: Seq<char>)
    requires
        after_text(point, s) matches Ok(read) && read.spec_is_complete(),
    ensures
        after_text(point, s + tail) == after_text(point, s),
    decreases s.len(),
{
    if !point.spec_is_complete() {
        assert((s + tail).drop_first() =~= s.drop_first() + tail);
        if let Ok(next) = after_char(point, s[0], alphabetic(s[0])) {
            lemma_after_text_stops_when_complete(next, s.drop_first(), tail);
        }
    }
}

/// Blanks do not matter: a line with a blank put in anywhere parses as the
/// line without it.
pub proof fn lemma_blank_is_ignored(s: Seq<char>, at: int)
    requires
        0 <= at <= s.len(),
    ensures
        parse_move(s.insert(at, ' ')) == parse_move(s),
{
    lemma_after_text_skips_blank(PlayerMove::spec_blank(), s, at);
}

/// A line that is a move stays the same move whatever is appended to it.
pub proof fn lemma_tail_is_ignored(s: Seq<char>, tail: Seq<char>)
    requires
        parse_move(s) is Ok,
    ensures
        parse_move(s + tail) == parse_move(s),
{
    lemma_after_text_stops_when_complete(PlayerMove::spec_blank(), s, tail);
}

/// A row letter followed by a column digit is a move: the line parses, keeps
/// both coordinates as typed and names the cell that `cell_index` gives.
pub proof fn lemma_letter_digit_parses(letter: char, digit: char)
    requires
        is_row_letter(letter),
        '1' <= digit <= '3',
    ensures
        parse_move(seq![letter, digit]) == Ok::<PlayerMove, MoveError>(
            PlayerMove {
                coord_letter: letter,
                coord_digit: digit_value(digit) as i32,
                square_val: cell_index(letter, digit_value(digit)) as usize,
            },
        ),
{
    let line = seq![letter, digit];
    let first = PlayerMove { coord_letter: letter, ..PlayerMove::spec_blank() };
    let both = PlayerMove { coord_digit: digit_value(digit) as i32, ..first };
    assert(after_text(both, line.drop_first().drop_first()) == Ok::<PlayerMove, MoveError>(both));
    assert(after_text(first, line.drop_first()) == Ok::<PlayerMove, MoveError>(both));
}

/// A row letter followed by a digit above 3 is refused as out of bounds, and
/// the error holds the digit.
pub proof fn lemma_high_digit_is_refused(letter: char, digit: char)
    requires
        is_row_letter(letter),
        '4' <= digit <= '9',
    ensures
        parse_move(seq![letter, digit]) == Err::<PlayerMove, MoveError>(
            MoveError::ColumnOutOfBounds(digit),
        ),
{
    let line = seq![letter, digit];
    let first = PlayerMove { coord_letter: letter, ..PlayerMove::spec_blank() };
    assert(after_text(first, line.drop_first()) == Err::<PlayerMove, MoveError>(
        MoveError::ColumnOutOfBounds(digit),
    ));
}

/// A line that starts with a letter other than `a`, `b`, `c` is refused as
/// an invalid row, and the error holds the letter.
pub proof fn lemma_other_letter_is_refused(letter: char, rest: Seq<char>)
    ensures
        alphabetic(letter) && !is_row_letter(letter) && !is_digit(letter) && letter != ' '
            ==> parse_move(seq![letter] + rest) == Err::<PlayerMove, MoveError>(
            MoveError::InvalidRow(letter),
        ),
{
}

/// Every move names a cell of the grid, numbered 0 to 8.
pub proof fn lemma_cell_index_in_grid(letter: char, digit: int)
    requires
        is_row_letter(letter),
        is_column(digit),
    ensures
        0 <= cell_index(letter, digit) < 9,
{
}

/// Cells are numbered row by row: the letters name the rows from the top
/// and the digits the columns from the left.
pub proof fn lemma_cell_index_row_by_row(letter: char, digit: int)
    requires
        is_row_letter(letter),
    ensures
        cell_index(letter, digit) == cell_at(letter as int - 'a' as int, digit - 1),
{
}

/// No two moves name the same cell.
pub proof fn lemma_cell_index_unique(letter1: char, digit1: int, letter2: char, digit2: int)
    requires
        is_row_letter(letter1),
        is_column(digit1),
        is_row_letter(letter2),
        is_column(digit2),
        cell_index(letter1, digit1) == cell_index(letter2, digit2),
    ensures
        letter1 == letter2,
        digit1 == digit2,
{
}

/// Every cell of the grid is named by a move, which is returned.
pub proof fn lemma_cell_index_covers(cell: int) -> (coords: (char, int))
    requires
        0 <= cell < 9,
    ensures
        is_row_letter(coords.0),
        is_column(coords.1),
        cell_index(coords.0, coords.1) == cell,
{
    if cell < 3 {
        ('a', cell + 1)
    } else if cell < 6 {
        ('b', cell - 2)
    } else {
        ('c', cell - 5)
    }
}

/// Whatever the line, a move that comes out of the parser is well formed.
pub proof fn lemma_parsed_move_wf(s: Seq<char>)
    ensures
        parse_move(s) matches Ok(point) ==> point.wf(),
{
}

impl PlayerMove {
    /// The record before anything has been read.
    pub open spec fn spec_blank() -> PlayerMove {
        PlayerMove { coord_letter: ' ', coord_digit: 0, square_val: 0 }
    }

    /// Both a row letter and a column digit have been read.
    pub open spec fn spec_is_complete(self) -> bool {
        self.coord_digit != 0 && self.coord_letter != ' '
    }

    /// The coordinates name a cell of the grid and `square_val` is that cell.
    pub open spec fn wf(self) -> bool {
        &&& is_row_letter(self.coord_letter)
        &&& is_column(self.coord_digit as int)
        &&& self.square_val == cell_index(self.coord_letter, self.coord_digit as int)
    }

    /// The record with its cell filled in from its coordinates, or
    /// `InvalidInput` where the coordinates name no cell.
    pub open spec fn located(self) -> Result<PlayerMove, MoveError> {
        if is_row_letter(self.coord_letter) && is_column(self.coord_digit as int) {
            Ok(
                PlayerMove {
                    square_val: cell_index(self.coord_letter, self.coord_digit as int) as usize,
                    ..self
                },
            )
        } else {
            Err(MoveError::InvalidInput)
        }
    }

    /// The record before anything has been read.
    #[verifier::when_used_as_spec(spec_blank)]
    pub fn blank() -> (point: PlayerMove)
        ensures
            point == PlayerMove::spec_blank(),
    {
        PlayerMove { coord_letter: ' ', coord_digit: 0, square_val: 0 }
    }

    /// Whether both a row letter and a column digit have been read.
    #[verifier::when_used_as_spec(spec_is_complete)]
    pub fn is_complete(self) -> (done: bool)
        ensures
            done == self.spec_is_complete(),
    {
        self.coord_digit != 0 && self.coord_letter != ' '
    }

    /// Reads one character into the record. `letter` tells whether `c` is
    /// alphabetic. On an error the record is left as it was.
    pub fn read_char(&mut self, c: char, letter: bool) -> (res: Result<(), MoveError>)
        ensures
            match after_char(*old(self), c, letter) {
                Ok(next) => res is Ok && *final(self) == next,
                Err(e) => res == Err::<(), MoveError>(e) && *final(self) == *old(self),
            },
    {
        if c == ' ' {
            return Ok(());
        }
        if '0' <= c && c <= '9' {
            if self.coord_digit == 0 {
                let digit: i32 = (c as u32 - '0' as u32) as i32;
                if digit > 3 {
                    return Err(MoveError::ColumnOutOfBounds(c));
                }
                self.coord_digit = digit;
            }
        } else if self.coord_letter == ' ' {
            if c == 'a' || c == 'b' || c == 'c' {
                self.coord_letter = c;
            } else if letter {
                return Err(MoveError::InvalidRow(c));
            }
        }
        Ok(())
    }

    /// Parses a line of input such as `a2`, `3c` or `b 1`.
    ///
    /// The line is read from left to right until both coordinates are known;
    /// what follows them is not looked at.
    pub fn new(coord: &str) -> (res: Result<PlayerMove, MoveError>)
        ensures
            res == parse_move(coord@),
    {
        let mut point = PlayerMove::blank();
        let mut chars = coord.chars();
        loop
            invariant
                chars.obeys_prophetic_iter_laws(),
                chars.decrease() is Some,
                after_text(point, chars.remaining()) == after_text(
                    PlayerMove::spec_blank(),
                    coord@,
                ),
            ensures
                Ok::<PlayerMove, MoveError>(point) == after_text(PlayerMove::spec_blank(), coord@),
            decreases chars.decrease()->0,
        {
            if point.is_complete() {
                break ;
            }
            match chars.next() {
                None => {
                    break ;
                },
                Some(c) => {
                    let letter = is_alphabetic(c);
                    match point.read_char(c, letter) {
                        Ok(()) => {},
                        Err(e) => {
                            return Err(e);
                        },
                    }
                },
            }
        }
        match point.compute_square_val() {
            Ok(_) => Ok(point),
            Err(e) => Err(e),
        }
    }

    /// Fills in `square_val` from the coordinates and returns it. Where the
    /// coordinates name no cell the record is left as it was.
    pub fn compute_square_val(&mut self) -> (res: Result<usize, MoveError>)
        ensures
            match old(self).located() {
                Ok(point) => res == Ok::<usize, MoveError>(point.square_val) && *final(self)
                    == point,
                Err(e) => res == Err::<usize, MoveError>(e) && *final(self) == *old(self),
            },
    {
        if self.coord_digit < 1 || self.coord_digit > 3 {
            return Err(MoveError::InvalidInput);
        }
        let val: i32 = if self.coord_letter == 'a' {
            self.coord_digit - 1
        } else if self.coord_letter == 'b' {
            self.coord_digit + 2
        } else if self.coord_letter == 'c' {
            self.coord_digit + 5
        } else {
            return Err(MoveError::InvalidInput);
        };
        self.square_val = val as usize;
        Ok(self.square_val)
    }
}

} // verus!
