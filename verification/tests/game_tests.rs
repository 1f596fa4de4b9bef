use tictactoe::board::{
    MoveError, Player, BOT_LEFT, BOT_MID, BOT_RIGHT, MID_LEFT, MID_MID, MID_RIGHT, TOP_LEFT,
    TOP_MID, TOP_RIGHT,
};
use tictactoe::game::{Game, State};

#[test]
fn test_start_game() {
    assert_eq!(Game::new(Player::O).player, Player::O);
    assert_eq!(Game::new(Player::O).state(), State::ONGOING);
    assert_eq!(Game::new(Player::O).moves_left(), 9);
}

#[test]
fn test_player_changes_on_first_move() {
    assert_eq!(
        Game::new(Player::O).play(TOP_LEFT).unwrap().player,
        Player::X
    )
}

#[test]
fn test_player_changes_on_second_move() {
    assert_eq!(
        Game::new(Player::O)
            .play(TOP_LEFT)
            .unwrap()
            .play(TOP_MID)
            .unwrap()
            .player,
        Player::O
    );
}

#[test]
fn test_game_winning_state() {
    assert_eq!(
        Game::new(Player::O)
            .play(TOP_LEFT)
            .unwrap()
            .play(BOT_LEFT)
            .unwrap()
            .play(TOP_MID)
            .unwrap()
            .play(BOT_MID)
            .unwrap()
            .play(TOP_RIGHT)
            .unwrap()
            .state(),
        State::WINNER
    );
}

#[test]
fn test_win_on_fifth_move_attributed_to_starter() {
    // The starter takes the whole top row while the opponent takes two
    // middle-row cells; the fifth move completes the row.
    let before_last = Game::new(Player::O)
        .play(TOP_LEFT)
        .unwrap()
        .play(MID_LEFT)
        .unwrap()
        .play(TOP_MID)
        .unwrap()
        .play(MID_MID)
        .unwrap();
    assert_eq!(before_last.state(), State::ONGOING);
    let won = before_last.play(TOP_RIGHT).unwrap();
    assert_eq!(won.state(), State::WINNER);
    // The winner is the opposite of the active player once the game is won.
    assert_eq!(won.player.opposite(), Player::O);
}

#[test]
fn test_draw_on_full_board() {
    // O takes 0, 2, 3, 7, 8 and X takes 1, 4, 5, 6: no line holds three
    // equal marks, so the full board is a draw.
    let game = Game::new(Player::O)
        .play(TOP_LEFT)
        .unwrap()
        .play(TOP_MID)
        .unwrap()
        .play(TOP_RIGHT)
        .unwrap()
        .play(MID_MID)
        .unwrap()
        .play(MID_LEFT)
        .unwrap()
        .play(MID_RIGHT)
        .unwrap()
        .play(BOT_MID)
        .unwrap()
        .play(BOT_LEFT)
        .unwrap()
        .play(BOT_RIGHT)
        .unwrap();
    assert_eq!(game.state(), State::DRAW);
    assert_eq!(game.moves_left(), 0);
}

#[test]
fn test_winner_on_full_board_takes_precedence_over_draw() {
    // The ninth move both fills the board and completes the left column
    // for O: the outcome is Winner, never Draw.
    let game = Game::new(Player::O)
        .play(TOP_LEFT)
        .unwrap()
        .play(TOP_MID)
        .unwrap()
        .play(MID_LEFT)
        .unwrap()
        .play(MID_MID)
        .unwrap()
        .play(TOP_RIGHT)
        .unwrap()
        .play(MID_RIGHT)
        .unwrap()
        .play(BOT_MID)
        .unwrap()
        .play(BOT_RIGHT)
        .unwrap()
        .play(BOT_LEFT)
        .unwrap();
    assert_eq!(game.moves_left(), 0);
    assert_eq!(game.state(), State::WINNER);
    assert_eq!(game.player.opposite(), Player::O);
}

#[test]
fn test_moves_left_decreases_by_one_per_move() {
    let g0 = Game::new(Player::O);
    assert_eq!(g0.moves_left(), 9);
    let g1 = g0.play(MID_MID).unwrap();
    assert_eq!(g1.moves_left(), 8);
    let g2 = g1.play(TOP_LEFT).unwrap();
    assert_eq!(g2.moves_left(), 7);
    let g3 = g2.play(BOT_RIGHT).unwrap();
    assert_eq!(g3.moves_left(), 6);
}

#[test]
fn test_play_propagates_board_errors_unchanged() {
    let game = Game::new(Player::O);
    assert_eq!(
        game.play(9).err().unwrap(),
        MoveError::OutOfRange { position: 9 }
    );
    let after_one = game.play(MID_MID).unwrap();
    assert_eq!(
        after_one.play(MID_MID).err().unwrap(),
        MoveError::OccupiedCell {
            position: MID_MID,
            player: Player::O
        }
    );
    // A failed move leaves the game intact and reusable.
    assert_eq!(after_one.player, Player::X);
    assert_eq!(after_one.moves_left(), 8);
}

#[test]
fn test_state_and_moves_left_are_pure() {
    let game = Game::new(Player::O)
        .play(TOP_LEFT)
        .unwrap()
        .play(MID_MID)
        .unwrap();
    assert_eq!(game.state(), game.state());
    assert_eq!(game.moves_left(), game.moves_left());
    // The queried game is unchanged.
    assert_eq!(game.player, Player::O);
    assert_eq!(game.board.grid[TOP_LEFT], Player::O);
    assert_eq!(game.board.grid[MID_MID], Player::X);
    assert_eq!(game.moves_left(), 7);
}

#[test]
fn test_play_after_win_is_refused() {
    let won = Game::new(Player::O)
        .play(TOP_LEFT)
        .unwrap()
        .play(MID_LEFT)
        .unwrap()
        .play(TOP_MID)
        .unwrap()
        .play(MID_MID)
        .unwrap()
        .play(TOP_RIGHT)
        .unwrap();
    assert_eq!(won.state(), State::WINNER);
    // Even a free cell is refused once the game is over.
    assert_eq!(won.play(BOT_RIGHT).err().unwrap(), MoveError::GameOver);
}

#[test]
fn test_play_after_draw_is_refused() {
    let drawn = Game::new(Player::O)
        .play(TOP_LEFT)
        .unwrap()
        .play(TOP_MID)
        .unwrap()
        .play(TOP_RIGHT)
        .unwrap()
        .play(MID_MID)
        .unwrap()
        .play(MID_LEFT)
        .unwrap()
        .play(MID_RIGHT)
        .unwrap()
        .play(BOT_MID)
        .unwrap()
        .play(BOT_LEFT)
        .unwrap()
        .play(BOT_RIGHT)
        .unwrap();
    assert_eq!(drawn.state(), State::DRAW);
    assert_eq!(drawn.play(TOP_LEFT).err().unwrap(), MoveError::GameOver);
}

#[test]
fn test_starting_with_x() {
    let game = Game::new(Player::X).play(BOT_LEFT).unwrap();
    assert_eq!(game.player, Player::O);
    assert_eq!(game.board.grid[BOT_LEFT], Player::X);
}
