//! Engine-wide laws, proved once and for all inputs.

use vstd::prelude::*;
use crate::board::{Board, MoveError, Player};
use crate::game::{Game, State, board_outcome, empty_count, empty_count_to, has_winner};

verus! {

/// Two sequences that agree on their first `n` entries have the same
/// count of empty marks among them.
proof fn lemma_empty_count_to_agree(s: Seq<Player>, t: Seq<Player>, n: int)
    requires
        forall|j: int| 0 <= j < n ==> s[j] == t[j],
    ensures
        empty_count_to(s, n) == empty_count_to(t, n),
    decreases n,
{
    if n > 0 {
        lemma_empty_count_to_agree(s, t, n - 1);
    }
}

/// Overwriting one empty entry among the first `n` with a non-empty mark
/// lowers the count of empty entries by exactly one.
proof fn lemma_empty_count_to_update(s: Seq<Player>, n: int, i: int, p: Player)
    requires
        0 <= i < n <= s.len(),
        s[i] == Player::NONE,
        p != Player::NONE,
    ensures
        empty_count_to(s.update(i, p), n) == empty_count_to(s, n) - 1,
    decreases n,
{
    if n - 1 == i {
        lemma_empty_count_to_agree(s.update(i, p), s, n - 1);
    } else {
        lemma_empty_count_to_update(s, n - 1, i, p);
    }
}

/// A sequence whose first `n` entries are all empty has `n` of them empty.
proof fn lemma_empty_count_to_all_empty(s: Seq<Player>, n: int)
    requires
        0 <= n <= s.len(),
        forall|j: int| 0 <= j < n ==> s[j] == Player::NONE,
    ensures
        empty_count_to(s, n) == n,
    decreases n,
{
    if n > 0 {
        lemma_empty_count_to_all_empty(s, n - 1);
    }
}

/// Placing any mark on any cell of an empty board succeeds, and the new
/// board holds the mark at that cell and is unchanged elsewhere.
pub proof fn lemma_put_on_empty_board(b: Board, player: Player, position: usize)
    requires
        b.all_empty(),
        position < 9,
    ensures
        b.spec_put(player, position) is Ok,
        b.spec_put(player, position)->Ok_0.cell(position as int) == player,
        forall|j: int|
            0 <= j < 9 && j != position ==> b.spec_put(player, position)->Ok_0.cell(j) == b.cell(
                j,
            ),
{
}

/// Placing at the same cell twice in succession fails the second time
/// with `OccupiedCell`, carrying that cell and the mark placed first.
/// Boards are immutable values, so the failed attempt produces no board
/// and the board it was tried on is intact.
pub proof fn lemma_put_twice_occupied(b: Board, first: Player, second: Player, position: usize)
    requires
        first != Player::NONE,
        b.spec_put(first, position) is Ok,
    ensures
        b.spec_put(first, position)->Ok_0.spec_put(second, position) == Err::<
            Board,
            MoveError,
        >(MoveError::OccupiedCell { position, player: first }),
{
}

/// An index outside the grid is refused with `OutOfRange` on every
/// board, occupied or not, whatever the mark.
pub proof fn lemma_put_out_of_range(b: Board, player: Player, position: usize)
    requires
        position > 8,
    ensures
        b.spec_put(player, position) == Err::<Board, MoveError>(
            MoveError::OutOfRange { position },
        ),
{
}

/// Turn alternation is exact and independent of board content: one
/// successful move flips the active player to the opposite mark, and a
/// second successful move restores the original one.
pub proof fn lemma_turn_alternation(g: Game, first: usize, second: usize)
    requires
        g.wf(),
        g.spec_play(first) is Ok,
        g.spec_play(first)->Ok_0.spec_play(second) is Ok,
    ensures
        g.spec_play(first)->Ok_0.player == g.player.spec_opposite(),
        g.spec_play(first)->Ok_0.spec_play(second)->Ok_0.player == g.player,
{
}

/// A board with all nine cells empty has nine moves left: a freshly
/// constructed game starts with nine.
pub proof fn lemma_empty_board_count(b: Board)
    requires
        b.all_empty(),
    ensures
        empty_count(b) == 9,
{
    assert forall|j: int| 0 <= j < 9 implies b.grid@[j] == Player::NONE by {
        assert(b.cell(j) == Player::NONE);
    }
    lemma_empty_count_to_all_empty(b.grid@, 9);
}

/// Each successful move fills exactly one previously empty cell, so the
/// count of moves left drops by exactly one.
pub proof fn lemma_play_decreases_moves_left(g: Game, position: usize)
    requires
        g.wf(),
        g.spec_play(position) is Ok,
    ensures
        empty_count(g.spec_play(position)->Ok_0.board) == empty_count(g.board) - 1,
{
    lemma_empty_count_to_update(g.board.grid@, 9, position as int, g.player);
}

/// A full board with no winning line is a draw.
pub proof fn lemma_full_board_draw(b: Board)
    requires
        !has_winner(b),
        empty_count(b) == 0,
    ensures
        board_outcome(b) == State::DRAW,
{
}

/// Winner and Draw are absorbing: a game that has been won or drawn
/// refuses every further move, whatever the index.
pub proof fn lemma_terminal_states_absorb(g: Game, position: usize)
    requires
        board_outcome(g.board) != State::ONGOING,
    ensures
        g.spec_play(position) == Err::<Game, MoveError>(MoveError::GameOver),
{
}

/// The win check takes precedence over the draw check: a board with a
/// winning line reports `WINNER`, never `DRAW`, even when it is full.
pub proof fn lemma_winner_precedes_draw(b: Board)
    requires
        has_winner(b),
    ensures
        board_outcome(b) == State::WINNER,
{
}

} // verus!
