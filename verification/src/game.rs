//! The game: turn alternation, move sequencing, and win/draw detection.

use vstd::prelude::*;
use crate::board::{Board, MoveError, Player};
use crate::board::{TOP_LEFT, TOP_MID, TOP_RIGHT, MID_LEFT, MID_MID, MID_RIGHT, BOT_LEFT, BOT_MID,
    BOT_RIGHT};

verus! {

/// The outcome of a game: still ongoing, drawn, or won.
///
/// `state` reports only that a win occurred, not by whom: the winner is
/// the player who made the previous move, i.e. the opposite of the
/// active player at the moment the outcome became `WINNER`.
#[derive(Copy, Clone, Debug, PartialEq, Eq, Structural)]
pub enum State {
    ONGOING,
    DRAW,
    WINNER,
}

/// The three cells `a`, `m`, `c` hold three equal, non-empty marks.
pub open spec fn line_won(b: Board, a: int, m: int, c: int) -> bool {
    b.cell(a) != Player::NONE && b.cell(a) == b.cell(m) && b.cell(a) == b.cell(c)
}

/// Some line of the eight fixed triples (three rows, three columns, two
/// diagonals) holds three equal, non-empty marks.
pub open spec fn has_winner(b: Board) -> bool {
    ||| line_won(b, 0, 1, 2)
    ||| line_won(b, 3, 4, 5)
    ||| line_won(b, 6, 7, 8)
    ||| line_won(b, 0, 3, 6)
    ||| line_won(b, 1, 4, 7)
    ||| line_won(b, 2, 5, 8)
    ||| line_won(b, 0, 4, 8)
    ||| line_won(b, 2, 4, 6)
}

/// How many of the first `n` cells of `s` hold the empty mark.
pub open spec fn empty_count_to(s: Seq<Player>, n: int) -> int
    decreases n,
{
    if n <= 0 {
        0
    } else {
        empty_count_to(s, n - 1) + if s[n - 1] == Player::NONE {
            1int
        } else {
            0int
        }
    }
}

/// How many of the nine cells of `b` hold the empty mark.
pub open spec fn empty_count(b: Board) -> int {
    empty_count_to(b.grid@, 9)
}

/// What `state` returns: a board with a winning line is `WINNER` (the
/// win check takes precedence over the draw check even on a full
/// board), a full board without one is `DRAW`, anything else `ONGOING`.
pub open spec fn board_outcome(b: Board) -> State {
    if has_winner(b) {
        State::WINNER
    } else if empty_count(b) == 0 {
        State::DRAW
    } else {
        State::ONGOING
    }
}

/// A board plus the active player: the player whose move is next.
/// Games are immutable values: each successful move produces a new game
/// with the opposite active player and the updated board.
#[derive(Copy, Clone)]
pub struct Game {
    pub player: Player,
    pub board: Board,
}

impl Game {
    /// A well-formed game: the active player is never the empty mark.
    /// `new` establishes this and every successful `play` preserves it.
    pub open spec fn wf(self) -> bool {
        self.player != Player::NONE
    }

    /// What `play` returns: a move on a won or drawn game is refused with
    /// `GameOver`; otherwise the placement is delegated to the board, and
    /// on success the active player flips to the opposite mark.
    pub open spec fn spec_play(self, position: usize) -> Result<Game, MoveError> {
        if board_outcome(self.board) != State::ONGOING {
            Err(MoveError::GameOver)
        } else {
            match self.board.spec_put(self.player, position) {
                Ok(board) => Ok(Game { player: self.player.spec_opposite(), board }),
                Err(e) => Err(e),
            }
        }
    }

    /// What `change_player` returns: the given board, and the active
    /// player flipped (a degenerate empty mark also yields `O`).
    pub open spec fn spec_change_player(self, board: Board) -> Game {
        Game {
            player: if self.player == Player::O {
                Player::X
            } else {
                Player::O
            },
            board,
        }
    }

    /// Returns a game with the given starting player and an empty board.
    pub fn new(player: Player) -> (g: Game)
        requires
            player != Player::NONE,
        ensures
            g.player == player,
            g.board.all_empty(),
            g.wf(),
    {
        Game { player: player, board: Board::new() }
    }

    /// Submits a move at `position` for the active player. A game that is
    /// already won or drawn refuses every further move with `GameOver`.
    /// Otherwise the placement is delegated to the board: on success the
    /// returned game holds the updated board and the opposite active
    /// player; on failure the board error is propagated unchanged. Either
    /// way the receiver is left intact (value semantics).
    pub fn play(self, position: usize) -> (r: Result<Game, MoveError>)
        requires
            self.wf(),
        ensures
            r == self.spec_play(position),
            r is Ok ==> r->Ok_0.wf(),
    {
        if self.state() != State::ONGOING {
            return Err(MoveError::GameOver);
        }
        match self.board.put(self.player, position) {
            Ok(board) => Ok(self.change_player(board)),
            Err(e) => Err(e),
        }
    }

    /// Returns a game holding `board` with the active player flipped.
    pub fn change_player(self, board: Board) -> (g: Game)
        ensures
            g == self.spec_change_player(board),
    {
        match self.player {
            Player::NONE => Game { player: Player::O, board: board },
            Player::O => Game { player: Player::X, board: board },
            Player::X => Game { player: Player::O, board: board },
        }
    }

    /// Classifies the current outcome. The eight lines are checked in a
    /// fixed order (rows, then columns, then diagonals); the win check
    /// takes precedence over the draw check. When the result is
    /// `WINNER`, the winning mark is `self.player.opposite()`: the
    /// player who made the previous move.
    pub fn state(self) -> (s: State)
        ensures
            s == board_outcome(self.board),
    {
        if self.line_has_winner(TOP_LEFT, TOP_MID, TOP_RIGHT) || self.line_has_winner(
            MID_LEFT,
            MID_MID,
            MID_RIGHT,
        ) || self.line_has_winner(BOT_LEFT, BOT_MID, BOT_RIGHT) || self.line_has_winner(
            TOP_LEFT,
            MID_LEFT,
            BOT_LEFT,
        ) || self.line_has_winner(TOP_MID, MID_MID, BOT_MID) || self.line_has_winner(
            TOP_RIGHT,
            MID_RIGHT,
            BOT_RIGHT,
        ) || self.line_has_winner(TOP_LEFT, MID_MID, BOT_RIGHT) || self.line_has_winner(
            TOP_RIGHT,
            MID_MID,
            BOT_LEFT,
        ) {
            return State::WINNER;
        }
        if self.moves_left() == 0 {
            return State::DRAW;
        }
        State::ONGOING
    }

    /// Tests one line in isolation: whether the cells `a`, `m`, `c` hold
    /// three equal, non-empty marks.
    pub fn line_has_winner(self, a: usize, m: usize, c: usize) -> (r: bool)
        requires
            a < 9,
            m < 9,
            c < 9,
        ensures
            r == line_won(self.board, a as int, m as int, c as int),
    {
        self.board.grid[a] != Player::NONE && self.board.grid[a] == self.board.grid[m]
            && self.board.grid[a] == self.board.grid[c]
    }

    /// Counts the empty cells: how many moves can still be made.
    pub fn moves_left(self) -> (n: i32)
        ensures
            n == empty_count(self.board),
    {
        let mut count: i32 = 0;
        let mut i: usize = 0;
        while i < 9
            invariant
                i <= 9,
                0 <= count <= i,
                count == empty_count_to(self.board.grid@, i as int),
            decreases 9 - i,
        {
            if self.board.grid[i] == Player::NONE {
                count = count + 1;
            }
            i = i + 1;
        }
        count
    }
}

} // verus!
