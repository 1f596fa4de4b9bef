//! The 3x3 grid: cell marks, named positions, and the placement rule.

use vstd::prelude::*;

verus! {

/// Named positions of the nine cells, in row-major order.
pub const TOP_LEFT: usize = 0;

pub const TOP_MID: usize = 1;

pub const TOP_RIGHT: usize = 2;

pub const MID_LEFT: usize = 3;

pub const MID_MID: usize = 4;

pub const MID_RIGHT: usize = 5;

pub const BOT_LEFT: usize = 6;

pub const BOT_MID: usize = 7;

pub const BOT_RIGHT: usize = 8;

/// The mark occupying a cell: empty, or one of the two players.
#[derive(Copy, Clone, Debug, PartialEq, Eq, Structural)]
pub enum Player {
    NONE,
    O,
    X,
}

impl Player {
    /// The opposite mark: `O` and `X` swap, the empty mark maps to itself.
    pub open spec fn spec_opposite(self) -> Player {
        match self {
            Player::NONE => Player::NONE,
            Player::O => Player::X,
            Player::X => Player::O,
        }
    }

    /// Returns the opposite mark.
    pub fn opposite(&self) -> (r: Player)
        ensures
            r == self.spec_opposite(),
    {
        match *self {
            Player::NONE => Player::NONE,
            Player::O => Player::X,
            Player::X => Player::O,
        }
    }
}

/// Why a move was refused. Every error is local to a single move
/// attempt and leaves the prior board and game values intact.
#[derive(Copy, Clone, Debug, PartialEq, Eq, Structural)]
pub enum MoveError {
    /// The requested index is outside the grid; carries the offending index.
    OutOfRange { position: usize },
    /// The requested cell already holds a mark; carries the index and the
    /// mark already present.
    OccupiedCell { position: usize, player: Player },
    /// The game has already been won or drawn. Returned by `Game::play`
    /// only; `Board::put` knows nothing of turns or outcomes.
    GameOver,
}

/// An ordered collection of exactly nine cell marks, indexed 0 through 8
/// in row-major order. Boards are immutable values: each placement
/// produces a new board and never mutates the receiver.
#[derive(Copy, Clone)]
pub struct Board {
    pub grid: [Player; 9],
}

impl Board {
    /// The mark at cell `i`.
    pub open spec fn cell(self, i: int) -> Player {
        self.grid@[i]
    }

    /// All nine cells hold the empty mark.
    pub open spec fn all_empty(self) -> bool {
        forall|i: int| 0 <= i < 9 ==> self.cell(i) == Player::NONE
    }

    /// What `put` returns: an out-of-range index or an occupied cell is
    /// refused with the matching error; otherwise the result is a new
    /// board identical to `self` except that cell `position` now holds
    /// `player`.
    pub open spec fn spec_put(self, player: Player, position: usize) -> Result<Board, MoveError> {
        if position > 8 {
            Err(MoveError::OutOfRange { position })
        } else if self.cell(position as int) != Player::NONE {
            Err(
                MoveError::OccupiedCell {
                    position,
                    player: self.cell(position as int),
                },
            )
        } else {
            Ok(
                Board {
                    grid: vstd::array::spec_array_update(self.grid, position as int, player),
                },
            )
        }
    }

    /// Returns a board with all nine cells empty.
    pub fn new() -> (b: Board)
        ensures
            b.all_empty(),
    {
        Board { grid: [Player::NONE; 9] }
    }

    /// Places `player` at cell `position`, refusing an index outside the
    /// grid or a cell that is already occupied. On success the returned
    /// board holds `player` at `position` and is unchanged elsewhere; the
    /// receiver is never mutated (value semantics).
    pub fn put(self, player: Player, position: usize) -> (r: Result<Board, MoveError>)
        ensures
            r == self.spec_put(player, position),
    {
        if position > 8 {
            return Err(MoveError::OutOfRange { position });
        }
        let current = self.grid[position];
        if current != Player::NONE {
            return Err(MoveError::OccupiedCell { position, player: current });
        }
        let mut grid = self.grid;
        grid[position] = player;
        let placed = Board { grid };
        proof {
            assert(placed.grid =~= vstd::array::spec_array_update(
                self.grid,
                position as int,
                player,
            ));
        }
        Ok(placed)
    }
}

} // verus!
