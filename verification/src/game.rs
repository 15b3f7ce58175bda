//! The game itself: two players take turns marking cells until one of them
//! holds a line.
//!
//! A game is either waiting for the move of one of the players or over with a
//! winner. Each line of input is one step: a line that is no acceptable move
//! changes nothing but the message waiting to be shown, and the same player
//! is asked again; an accepted move marks a cell and then either ends the
//! game or hands the turn to the other player.

use crate::field::{as_ints, Field, FieldView, BLANK};
use crate::moves::{parse_move, MoveError, PlayerMove};
use crate::text::{push_char, trim, trimmed};
use crate::win::{tic_tac_toe, wins, CELLS};
use vstd::prelude::*;

verus! {

/// One of the two players.
#[derive(Clone, Copy, Debug, PartialEq, Eq, Structural)]
pub enum Player {
    /// Moves first and marks cells with `X`.
    One,
    /// Moves second and marks cells with `O`.
    Two,
}

impl Player {
    /// The opponent.
    pub open spec fn spec_other(self) -> Player {
        match self {
            Player::One => Player::Two,
            Player::Two => Player::One,
        }
    }

    /// The character this player's cells show.
    pub open spec fn spec_mark(self) -> char {
        match self {
            Player::One => 'X',
            Player::Two => 'O',
        }
    }

    /// The number the player is addressed by: 1 or 2.
    pub open spec fn spec_number(self) -> i32 {
        match self {
            Player::One => 1,
            Player::Two => 2,
        }
    }

    /// The opponent.
    #[verifier::when_used_as_spec(spec_other)]
    pub fn other(self) -> (opponent: Player)
        ensures
            opponent == self.spec_other(),
    {
        match self {
            Player::One => Player::Two,
            Player::Two => Player::One,
        }
    }

    /// The character this player's cells show.
    #[verifier::when_used_as_spec(spec_mark)]
    pub fn mark(self) -> (sign: char)
        ensures
            sign == self.spec_mark(),
    {
        match self {
            Player::One => 'X',
            Player::Two => 'O',
        }
    }

    /// The number the player is addressed by: 1 or 2.
    #[verifier::when_used_as_spec(spec_number)]
    pub fn number(self) -> (n: i32)
        ensures
            n == self.spec_number(),
    {
        match self {
            Player::One => 1,
            Player::Two => 2,
        }
    }
}

/// Why a line of input was turned down.
#[derive(Clone, Copy, Debug, PartialEq, Eq, Structural)]
pub enum Rejection {
    /// The line has fewer than two characters.
    TooShort,
    /// The line does not parse as a move.
    NotAMove(MoveError),
    /// The cell is already marked, by either player.
    Occupied,
}

impl Rejection {
    /// The message shown to the player.
    pub open spec fn text(self) -> Seq<char> {
        match self {
            Rejection::TooShort => "Please specify two coordinates. E.g. B2"@,
            Rejection::NotAMove(error) => error.text(),
            Rejection::Occupied => "This field is already occupied. Choose another one."@,
        }
    }

    /// The message shown to the player.
    pub fn message(&self) -> (msg: String)
        ensures
            msg@ == self.text(),
    {
        match self {
            Rejection::TooShort => String::from_str("Please specify two coordinates. E.g. B2"),
            Rejection::NotAMove(error) => error.message(),
            Rejection::Occupied => String::from_str(
                "This field is already occupied. Choose another one.",
            ),
        }
    }
}

/// The state of a game as mathematical values.
pub struct GameView {
    /// The picture of the board as it is shown.
    pub board: Seq<char>,
    /// For each cell number, the position of that cell in `board`.
    pub places: Seq<int>,
    /// The cells that player one has marked.
    pub marks1: Seq<bool>,
    /// The cells that player two has marked.
    pub marks2: Seq<bool>,
    /// The player whose move is awaited.
    pub turn: Player,
    /// The winner, once there is one.
    pub winner: Option<Player>,
    /// The rejection that has not been shown yet.
    pub pending: Option<Rejection>,
}

impl GameView {
    /// The game before the first move on a freshly loaded field.
    pub open spec fn start(field: FieldView) -> GameView {
        GameView {
            board: field.cells,
            places: field.places,
            marks1: Seq::new(CELLS as nat, |k: int| false),
            marks2: Seq::new(CELLS as nat, |k: int| false),
            turn: Player::One,
            winner: None,
            pending: None,
        }
    }

    /// The cells that `player` has marked.
    pub open spec fn marks(self, player: Player) -> Seq<bool> {
        match player {
            Player::One => self.marks1,
            Player::Two => self.marks2,
        }
    }

    /// The cell is marked by one of the players.
    pub open spec fn occupied(self, cell: int) -> bool {
        self.marks1[cell] || self.marks2[cell]
    }

    /// The character that the cell shows.
    pub open spec fn shown(self, cell: int) -> char {
        if self.marks1[cell] {
            Player::One.spec_mark()
        } else if self.marks2[cell] {
            Player::Two.spec_mark()
        } else {
            BLANK
        }
    }

    /// The game is over.
    pub open spec fn over(self) -> bool {
        self.winner is Some
    }

    /// What always holds of a game.
    ///
    /// Each player's tracker covers the nine cells and no cell is marked by
    /// both. The cells lie at distinct places of the picture, and each shows
    /// the mark of the player who holds it or a blank. There is a winner
    /// exactly when a tracker holds a line, and the winner is the player
    /// whose tracker does.
    pub open spec fn wf(self) -> bool {
        &&& self.places.len() == CELLS
        &&& self.marks1.len() == CELLS
        &&& self.marks2.len() == CELLS
        &&& forall|k: int|
            0 <= k < CELLS ==> 0 <= #[trigger] self.places[k] < self.board.len()
        &&& forall|j: int, k: int| 0 <= j < k < CELLS ==> self.places[j] < self.places[k]
        &&& forall|k: int| 0 <= k < CELLS ==> !(self.marks1[k] && self.marks2[k])
        &&& forall|k: int|
            0 <= k < CELLS ==> self.board[#[trigger] self.places[k]] == self.shown(k)
        &&& match self.winner {
            Some(player) => wins(self.marks(player)),
            None => !wins(self.marks1) && !wins(self.marks2),
        }
    }

    /// The game after a line was turned down: only the message changes.
    pub open spec fn rejected(self, why: Rejection) -> GameView {
        GameView { pending: Some(why), ..self }
    }

    /// The game after the player to move has marked the free cell `cell`:
    /// the mark is on the tracker and on the board, and the player has won
    /// or the turn has passed to the opponent.
    pub open spec fn marked(self, cell: int) -> GameView {
        let marks = self.marks(self.turn).update(cell, true);
        let won = wins(marks);
        GameView {
            board: self.board.update(self.places[cell], self.turn.spec_mark()),
            marks1: if self.turn == Player::One {
                marks
            } else {
                self.marks1
            },
            marks2: if self.turn == Player::Two {
                marks
            } else {
                self.marks2
            },
            turn: if won {
                self.turn
            } else {
                self.turn.spec_other()
            },
            winner: if won {
                Some(self.turn)
            } else {
                self.winner
            },
            ..self
        }
    }

    /// The game after the player to move has asked for `cell`.
    pub open spec fn after_move(self, cell: int) -> GameView {
        if self.occupied(cell) {
            self.rejected(Rejection::Occupied)
        } else {
            self.marked(cell)
        }
    }

    /// The game after a line of input that parsed as `parsed`.
    pub open spec fn after_parse(self, parsed: Result<PlayerMove, MoveError>) -> GameView {
        match parsed {
            Ok(point) => self.after_move(point.square_val as int),
            Err(error) => self.rejected(Rejection::NotAMove(error)),
        }
    }

    /// The game after the line of input `line`, as it was read.
    pub open spec fn after_line(self, line: Seq<char>) -> GameView {
        if line.len() < 2 {
            self.rejected(Rejection::TooShort)
        } else {
            self.after_parse(parse_move(trimmed(line)))
        }
    }
}

/// What is to be shown before the next line of input is read.
#[derive(Debug)]
pub struct Screen {
    /// The picture of the board.
    pub board: String,
    /// The message left by the last rejected line; empty if there is none.
    pub message: String,
    /// The player to ask for a move; nobody once the game is over.
    pub prompt: Option<Player>,
}

/// A game in progress or finished.
#[derive(Debug)]
pub struct Game {
    field: Vec<char>,
    indices: Vec<usize>,
    player1: Vec<bool>,
    player2: Vec<bool>,
    player_turn: Player,
    winner: Option<Player>,
    msg: Option<Rejection>,
}

impl View for Game {
    type V = GameView;

    closed spec fn view(&self) -> GameView {
        GameView {
            board: self.field@,
            places: as_ints(self.indices@),
            marks1: self.player1@,
            marks2: self.player2@,
            turn: self.player_turn,
            winner: self.winner,
            pending: self.msg,
        }
    }
}

impl Game {
    /// Starts a game on a loaded field. Player one moves first.
    pub fn new(field: Field) -> (game: Game)
        ensures
            game@ == GameView::start(field@),
            game@.wf(),
    {
        let (cells, indices) = field.into_parts();
        let game = Game {
            field: cells,
            indices,
            player1: vec![false; CELLS],
            player2: vec![false; CELLS],
            player_turn: Player::One,
            winner: None,
            msg: None,
        };
        assert(game@.marks1 =~= Seq::new(CELLS as nat, |k: int| false));
        assert(game@.marks2 =~= Seq::new(CELLS as nat, |k: int| false));
        game
    }

    /// Settles a line of input that has been parsed already: a parse error
    /// or an occupied cell is turned down, anything else is played.
    pub fn apply(&mut self, parsed: Result<PlayerMove, MoveError>)
        requires
            old(self)@.wf(),
            !old(self)@.over(),
            parsed matches Ok(point) ==> point.square_val < CELLS,
        ensures
            final(self)@ == old(self)@.after_parse(parsed),
            final(self)@.wf(),
    {
        match parsed {
            Err(error) => {
                self.msg = Some(Rejection::NotAMove(error));
            },
            Ok(point) => {
                let cell = point.square_val;
                if self.player1[cell] || self.player2[cell] {
                    self.msg = Some(Rejection::Occupied);
                } else {
                    let player = self.player_turn;
                    let place = self.indices[cell];
                    self.field.set(place, player.mark());
                    let won = match player {
                        Player::One => {
                            self.player1.set(cell, true);
                            tic_tac_toe(&self.player1)
                        },
                        Player::Two => {
                            self.player2.set(cell, true);
                            tic_tac_toe(&self.player2)
                        },
                    };
                    if won {
                        self.winner = Some(player);
                    } else {
                        self.player_turn = player.other();
                    }
                    proof {
                        lemma_marked_wf(old(self)@, cell as int);
                    }
                }
            },
        }
    }

    /// Takes one line of input, as it was read, from the player to move.
    ///
    /// A line of fewer than two characters is turned down. Any other line is
    /// trimmed and parsed; a line that is no move, or that asks for a marked
    /// cell, is turned down as well. A rejection leaves the game as it was
    /// but for the message. An accepted move marks the cell for the player
    /// and on the board; then the player has won, or it is the opponent's
    /// turn.
    pub fn play(&mut self, line: &str)
        requires
            old(self)@.wf(),
            !old(self)@.over(),
        ensures
            final(self)@ == old(self)@.after_line(line@),
            final(self)@.wf(),
    {
        if line.unicode_len() < 2 {
            self.msg = Some(Rejection::TooShort);
        } else {
            let parsed = PlayerMove::new(trim(line));
            self.apply(parsed);
        }
    }

    /// Hands out what is to be shown before the next line is read, and
    /// forgets the pending message.
    pub fn draw(&mut self) -> (screen: Screen)
        ensures
            screen.board@ == old(self)@.board,
            screen.message@ == match old(self)@.pending {
                Some(why) => why.text(),
                None => Seq::<char>::empty(),
            },
            screen.prompt == if old(self)@.over() {
                None
            } else {
                Some(old(self)@.turn)
            },
            final(self)@ == (GameView { pending: None, ..old(self)@ }),
            old(self)@.wf() ==> final(self)@.wf(),
    {
        let mut board = String::new();
        let mut i: usize = 0;
        while i < self.field.len()
            invariant
                i <= self.field.len(),
                board@ == self.field@.subrange(0, i as int),
            decreases self.field.len() - i,
        {
            push_char(&mut board, self.field[i]);
            i += 1;
        }
        let message = match self.msg {
            Some(why) => why.message(),
            None => String::new(),
        };
        let prompt = match self.winner {
            Some(_) => None,
            None => Some(self.player_turn),
        };
        self.msg = None;
        Screen { board, message, prompt }
    }

    /// The winner, once there is one.
    pub fn winner(&self) -> (winner: Option<Player>)
        ensures
            winner == self@.winner,
    {
        self.winner
    }

    /// The player whose move is awaited.
    pub fn turn(&self) -> (player: Player)
        ensures
            player == self@.turn,
    {
        self.player_turn
    }

    /// The rejection that has not been shown yet.
    pub fn pending(&self) -> (why: Option<Rejection>)
        ensures
            why == self@.pending,
    {
        self.msg
    }

    /// The picture of the board as it stands.
    pub fn board(&self) -> (board: &Vec<char>)
        ensures
            board@ == self@.board,
    {
        &self.field
    }

    /// The tracker of `player`: for each cell, whether the player holds it.
    pub fn marks(&self, player: Player) -> (marks: &Vec<bool>)
        ensures
            marks@ == self@.marks(player),
    {
        match player {
            Player::One => &self.player1,
            Player::Two => &self.player2,
        }
    }
}

/// Marking a free cell keeps the game well formed.
pub proof fn lemma_marked_wf(game: GameView, cell: int)
    requires
        game.wf(),
        !game.over(),
        0 <= cell < CELLS,
        !game.occupied(cell),
    ensures
        game.marked(cell).wf(),
{
}

/// A game starts well formed, with player one to move and no winner.
pub proof fn lemma_start_wf(field: FieldView)
    requires
        field.wf(),
    ensures
        GameView::start(field).wf(),
        GameView::start(field).turn == Player::One,
        !GameView::start(field).over(),
{
}

/// Whatever line is played, the game stays well formed. In particular no
/// cell is ever marked by both players.
pub proof fn lemma_after_line_wf(game: GameView, line: Seq<char>)
    requires
        game.wf(),
        !game.over(),
    ensures
        game.after_line(line).wf(),
{
    if line.len() >= 2 {
        if let Ok(point) = parse_move(trimmed(line)) {
            if !game.occupied(point.square_val as int) {
                lemma_marked_wf(game, point.square_val as int);
            }
        }
    }
}

/// Asking for a cell that either player holds changes neither the trackers
/// nor the board nor whose turn it is; only the message is replaced by the
/// one for an occupied cell.
pub proof fn lemma_occupied_is_rejected(game: GameView, cell: int)
    requires
        game.occupied(cell),
    ensures
        game.after_move(cell).marks1 == game.marks1,
        game.after_move(cell).marks2 == game.marks2,
        game.after_move(cell).board == game.board,
        game.after_move(cell).turn == game.turn,
        game.after_move(cell).winner == game.winner,
        game.after_move(cell).pending == Some(Rejection::Occupied),
{
}

/// A line leads to one of three outcomes. It is turned down, and only the
/// message changes. Or it marks a free cell for the player to move, and then
/// either that player has won or the game goes on with the opponent to move.
pub proof fn lemma_after_line_outcomes(game: GameView, line: Seq<char>)
    requires
        game.wf(),
        !game.over(),
    ensures
        ({
            let next = game.after_line(line);
            ||| next.pending is Some && next == game.rejected(next.pending->0)
            ||| exists|cell: int|
                0 <= cell < CELLS && !game.occupied(cell) && next == #[trigger] game.marked(cell)
                    && (next.winner == Some(game.turn) || (!next.over() && next.turn
                    == game.turn.spec_other()))
        }),
{
}

} // verus!
