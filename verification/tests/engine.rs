use sol_connect_four::errors::SolConnectFourError;
use sol_connect_four::game::{cancel_game, join_game, new_game, play, Outcome, PlayResult};
use sol_connect_four::state::{Game, GameState, PlayerId};

const A: PlayerId = PlayerId(11);
const B: PlayerId = PlayerId(22);

fn started_game() -> Game {
    let mut g = new_game(A, String::from("g1"), 100);
    join_game(B, &mut g, 100).unwrap();
    g
}

fn cell(g: &Game, r: usize, c: usize) -> Option<u8> {
    g.board[r * 7 + c]
}

fn must_continue(g: &mut Game, signer: PlayerId, opponent: PlayerId, col: u8) {
    let res = play(signer, opponent, g, col).unwrap();
    assert_eq!(res.outcome, Outcome::Continue);
    assert!(res.payouts.is_empty());
}

#[test]
fn create_initializes_record() {
    let g = new_game(A, String::from("g1"), 100);
    assert_eq!(g.reference, String::from("g1"));
    assert_eq!(g.player0, A);
    assert_eq!(g.player1, None);
    assert_eq!(g.winner, None);
    assert_eq!(g.state, GameState::NotStarted);
    assert_eq!(g.prize, 200);
    assert_eq!(g.turn, 0);
    assert_eq!(g.board.len(), 42);
    assert!(g.board.iter().all(|c: &Option<u8>| c.is_none()));
}

#[test]
fn join_starts_the_game() {
    let mut g = new_game(A, String::from("g1"), 100);
    join_game(B, &mut g, 100).unwrap();
    assert_eq!(g.state, GameState::InProgress);
    assert_eq!(g.player1, Some(B));
    assert_eq!(g.turn, 0);
}

#[test]
fn join_rejects_creator() {
    let mut g = new_game(A, String::from("g1"), 100);
    assert_eq!(join_game(A, &mut g, 100), Err(SolConnectFourError::InvalidPlayer));
    assert_eq!(g.state, GameState::NotStarted);
}

#[test]
fn join_rejects_wrong_commitment() {
    let mut g = new_game(A, String::from("g1"), 100);
    assert_eq!(join_game(B, &mut g, 50), Err(SolConnectFourError::InvalidCommitment));
    assert_eq!(g.player1, None);
}

#[test]
fn join_rejects_full_game() {
    let mut g = started_game();
    assert_eq!(join_game(PlayerId(33), &mut g, 100), Err(SolConnectFourError::GameFull));
    assert_eq!(g.player1, Some(B));
}

#[test]
fn cancel_refunds_creator_commitment() {
    let g = new_game(A, String::from("g1"), 100);
    let plan = cancel_game(A, &g).unwrap();
    assert_eq!(plan.len(), 1);
    assert_eq!(plan[0].recipient, A);
    assert_eq!(plan[0].amount, 100);
}

#[test]
fn cancel_rejects_non_creator() {
    let g = new_game(A, String::from("g1"), 100);
    assert_eq!(cancel_game(B, &g), Err(SolConnectFourError::InvalidPlayer));
}

#[test]
fn cancel_rejects_started_game() {
    let g = started_game();
    assert_eq!(cancel_game(A, &g), Err(SolConnectFourError::GameStarted));
}

#[test]
fn play_rejects_before_join() {
    let mut g = new_game(A, String::from("g1"), 100);
    assert_eq!(play(A, B, &mut g, 0), Err(SolConnectFourError::GameNotStarted));
    assert_eq!(g.state, GameState::NotStarted);
}

#[test]
fn play_rejects_stranger() {
    let mut g = started_game();
    assert_eq!(play(PlayerId(99), B, &mut g, 0), Err(SolConnectFourError::InvalidPlayer));
}

#[test]
fn play_rejects_wrong_opponent_claim() {
    let mut g = started_game();
    assert_eq!(play(A, A, &mut g, 0), Err(SolConnectFourError::InvalidPlayer));
    assert_eq!(play(A, PlayerId(99), &mut g, 0), Err(SolConnectFourError::InvalidPlayer));
}

#[test]
fn play_rejects_out_of_turn() {
    let mut g = started_game();
    assert_eq!(play(B, A, &mut g, 0), Err(SolConnectFourError::NotYourTurn));
    assert_eq!(g.turn, 0);
}

#[test]
fn play_rejects_bad_column() {
    let mut g = started_game();
    assert_eq!(play(A, B, &mut g, 7), Err(SolConnectFourError::InvalidColumn));
    assert_eq!(play(A, B, &mut g, 255), Err(SolConnectFourError::InvalidColumn));
}

#[test]
fn turn_alternates_strictly() {
    let mut g = started_game();
    assert_eq!(g.turn, 0);
    must_continue(&mut g, A, B, 0);
    assert_eq!(g.turn, 1);
    must_continue(&mut g, B, A, 1);
    assert_eq!(g.turn, 0);
    must_continue(&mut g, A, B, 2);
    assert_eq!(g.turn, 1);
    must_continue(&mut g, B, A, 3);
    assert_eq!(g.turn, 0);
}

#[test]
fn cells_fill_monotonically() {
    let mut g = started_game();
    must_continue(&mut g, A, B, 0);
    assert_eq!(cell(&g, 5, 0), Some(0));
    must_continue(&mut g, B, A, 0);
    assert_eq!(cell(&g, 5, 0), Some(0));
    assert_eq!(cell(&g, 4, 0), Some(1));
    must_continue(&mut g, A, B, 1);
    assert_eq!(cell(&g, 5, 0), Some(0));
    assert_eq!(cell(&g, 4, 0), Some(1));
    assert_eq!(cell(&g, 5, 1), Some(0));
}

#[test]
fn gravity_lands_in_lowest_empty_row() {
    let mut g = started_game();
    must_continue(&mut g, A, B, 4);
    assert_eq!(cell(&g, 5, 4), Some(0));
    must_continue(&mut g, B, A, 4);
    assert_eq!(cell(&g, 4, 4), Some(1));
    // Rows 5 and 4 of the column are filled: the next move lands at row 3.
    must_continue(&mut g, A, B, 4);
    assert_eq!(cell(&g, 3, 4), Some(0));
}

#[test]
fn full_column_rejects_with_invalid_row() {
    let mut g = started_game();
    // Six alternating drops fill column 2 without a vertical run of four.
    must_continue(&mut g, A, B, 2);
    must_continue(&mut g, B, A, 2);
    must_continue(&mut g, A, B, 2);
    must_continue(&mut g, B, A, 2);
    must_continue(&mut g, A, B, 2);
    must_continue(&mut g, B, A, 2);
    let turn_before = g.turn;
    assert_eq!(play(A, B, &mut g, 2), Err(SolConnectFourError::InvalidRow));
    assert_eq!(g.turn, turn_before);
    assert_eq!(g.state, GameState::InProgress);
}

#[test]
fn end_to_end_vertical_win_pays_winner() {
    // Player A creates with commitment 100 (stake 200, reference "g1"),
    // player B joins with 100, and A stacks column 0 to a vertical win.
    let mut g = new_game(A, String::from("g1"), 100);
    assert_eq!(g.prize, 200);
    join_game(B, &mut g, 100).unwrap();
    must_continue(&mut g, A, B, 0);
    assert_eq!(cell(&g, 5, 0), Some(0));
    must_continue(&mut g, B, A, 1);
    assert_eq!(cell(&g, 5, 1), Some(1));
    must_continue(&mut g, A, B, 0);
    assert_eq!(cell(&g, 4, 0), Some(0));
    must_continue(&mut g, B, A, 1);
    assert_eq!(cell(&g, 4, 1), Some(1));
    must_continue(&mut g, A, B, 0);
    assert_eq!(cell(&g, 3, 0), Some(0));
    must_continue(&mut g, B, A, 1);
    assert_eq!(cell(&g, 3, 1), Some(1));
    let res: PlayResult = play(A, B, &mut g, 0).unwrap();
    assert_eq!(cell(&g, 2, 0), Some(0));
    assert_eq!(res.outcome, Outcome::Win(0));
    assert_eq!(res.payouts.len(), 1);
    assert_eq!(res.payouts[0].recipient, A);
    assert_eq!(res.payouts[0].amount, 200);
    assert_eq!(g.state, GameState::Player0Won);
    assert_eq!(g.winner, Some(A));
}

#[test]
fn horizontal_win_detected() {
    let mut g = started_game();
    must_continue(&mut g, A, B, 0);
    must_continue(&mut g, B, A, 0);
    must_continue(&mut g, A, B, 1);
    must_continue(&mut g, B, A, 1);
    must_continue(&mut g, A, B, 2);
    must_continue(&mut g, B, A, 2);
    let res = play(A, B, &mut g, 3).unwrap();
    assert_eq!(res.outcome, Outcome::Win(0));
    assert_eq!(g.state, GameState::Player0Won);
    assert_eq!(g.winner, Some(A));
    assert_eq!(res.payouts.len(), 1);
    assert_eq!(res.payouts[0].recipient, A);
    assert_eq!(res.payouts[0].amount, 200);
}

#[test]
fn second_player_win_detected() {
    let mut g = started_game();
    must_continue(&mut g, A, B, 6);
    must_continue(&mut g, B, A, 0);
    must_continue(&mut g, A, B, 6);
    must_continue(&mut g, B, A, 1);
    must_continue(&mut g, A, B, 6);
    must_continue(&mut g, B, A, 2);
    must_continue(&mut g, A, B, 5);
    let res = play(B, A, &mut g, 3).unwrap();
    assert_eq!(res.outcome, Outcome::Win(1));
    assert_eq!(g.state, GameState::Player1Won);
    assert_eq!(g.winner, Some(B));
    assert_eq!(res.payouts[0].recipient, B);
    assert_eq!(res.payouts[0].amount, 200);
}

#[test]
fn diagonal_win_detected() {
    // A builds the rising diagonal (5,0), (4,1), (3,2), (2,3).
    let mut g = started_game();
    must_continue(&mut g, A, B, 0); // A at (5,0)
    must_continue(&mut g, B, A, 1);
    must_continue(&mut g, A, B, 1); // A at (4,1)
    must_continue(&mut g, B, A, 2);
    must_continue(&mut g, A, B, 2); // A at (4,2)
    must_continue(&mut g, B, A, 3);
    must_continue(&mut g, A, B, 2); // A at (3,2)
    must_continue(&mut g, B, A, 3);
    must_continue(&mut g, A, B, 3); // A at (3,3)
    must_continue(&mut g, B, A, 6);
    let res = play(A, B, &mut g, 3).unwrap(); // A at (2,3)
    assert_eq!(res.outcome, Outcome::Win(0));
    assert_eq!(g.state, GameState::Player0Won);
}

#[test]
fn antidiagonal_win_detected() {
    // A builds the falling diagonal (2,3), (3,4), (4,5), (5,6).
    let mut g = started_game();
    must_continue(&mut g, A, B, 6); // A at (5,6)
    must_continue(&mut g, B, A, 5);
    must_continue(&mut g, A, B, 5); // A at (4,5)
    must_continue(&mut g, B, A, 4);
    must_continue(&mut g, A, B, 4); // A at (4,4)
    must_continue(&mut g, B, A, 3);
    must_continue(&mut g, A, B, 4); // A at (3,4)
    must_continue(&mut g, B, A, 3);
    must_continue(&mut g, A, B, 3); // A at (3,3)
    must_continue(&mut g, B, A, 0);
    let res = play(A, B, &mut g, 3).unwrap(); // A at (2,3)
    assert_eq!(res.outcome, Outcome::Win(0));
    assert_eq!(g.state, GameState::Player0Won);
}

#[test]
fn diagonal_win_completed_in_run_interior() {
    // A owns (5,2), (4,3) and (2,5) of the rising diagonal
    // (5,2), (4,3), (3,4), (2,5); the final marker at (3,4) completes the
    // run from inside it, not at an end.
    let mut g = started_game();
    must_continue(&mut g, A, B, 2); // A at (5,2)
    must_continue(&mut g, B, A, 3);
    must_continue(&mut g, A, B, 3); // A at (4,3)
    must_continue(&mut g, B, A, 4);
    must_continue(&mut g, A, B, 4); // A at (4,4)
    must_continue(&mut g, B, A, 5);
    must_continue(&mut g, A, B, 5); // A at (4,5)
    must_continue(&mut g, B, A, 5);
    must_continue(&mut g, A, B, 5); // A at (2,5)
    must_continue(&mut g, B, A, 0);
    let res = play(A, B, &mut g, 4).unwrap(); // A at (3,4)
    assert_eq!(res.outcome, Outcome::Win(0));
    assert_eq!(g.state, GameState::Player0Won);
    assert_eq!(g.winner, Some(A));
}

#[test]
fn antidiagonal_win_completed_in_run_interior() {
    // A owns (5,4), (4,3) and (2,1) of the falling diagonal
    // (2,1), (3,2), (4,3), (5,4); the final marker at (3,2) completes the
    // run from inside it, not at an end.
    let mut g = started_game();
    must_continue(&mut g, A, B, 4); // A at (5,4)
    must_continue(&mut g, B, A, 3);
    must_continue(&mut g, A, B, 3); // A at (4,3)
    must_continue(&mut g, B, A, 2);
    must_continue(&mut g, A, B, 2); // A at (4,2)
    must_continue(&mut g, B, A, 1);
    must_continue(&mut g, A, B, 1); // A at (4,1)
    must_continue(&mut g, B, A, 1);
    must_continue(&mut g, A, B, 1); // A at (2,1)
    must_continue(&mut g, B, A, 6);
    let res = play(A, B, &mut g, 2).unwrap(); // A at (3,2)
    assert_eq!(res.outcome, Outcome::Win(0));
    assert_eq!(g.state, GameState::Player0Won);
    assert_eq!(g.winner, Some(A));
}

#[test]
fn broken_line_is_no_win() {
    // Row 5 holds A, A, A, B after these moves: filling (5,4) with A
    // completes no window, so the game continues.
    let mut g = started_game();
    must_continue(&mut g, A, B, 0);
    must_continue(&mut g, B, A, 3); // B blocks (5,3)
    must_continue(&mut g, A, B, 1);
    must_continue(&mut g, B, A, 0);
    must_continue(&mut g, A, B, 2);
    must_continue(&mut g, B, A, 1);
    must_continue(&mut g, A, B, 4);
    assert_eq!(g.state, GameState::InProgress);
    assert_eq!(cell(&g, 5, 3), Some(1));
    assert_eq!(cell(&g, 5, 4), Some(0));
}

#[test]
fn terminal_game_rejects_further_moves() {
    let mut g = started_game();
    must_continue(&mut g, A, B, 0);
    must_continue(&mut g, B, A, 1);
    must_continue(&mut g, A, B, 0);
    must_continue(&mut g, B, A, 1);
    must_continue(&mut g, A, B, 0);
    must_continue(&mut g, B, A, 1);
    let res = play(A, B, &mut g, 0).unwrap();
    assert_eq!(res.outcome, Outcome::Win(0));
    let board_before = g.board.clone();
    let state_before = g.state;
    let turn_before = g.turn;
    assert_eq!(play(B, A, &mut g, 2), Err(SolConnectFourError::GameOver));
    assert_eq!(play(A, B, &mut g, 2), Err(SolConnectFourError::GameOver));
    assert_eq!(g.board, board_before);
    assert_eq!(g.state, state_before);
    assert_eq!(g.turn, turn_before);
    assert_eq!(g.winner, Some(A));
}

#[test]
fn draw_on_last_cell_splits_stake() {
    // A full board with no run of four anywhere, except one empty cell at
    // the top of column 0; dropping the final marker there draws the game.
    let mut board: Vec<Option<u8>> = Vec::new();
    for r in 0..6usize {
        for c in 0..7usize {
            let v: u8 = if (2 * r + c) % 4 < 2 { 0 } else { 1 };
            board.push(Some(v));
        }
    }
    board[0] = None;
    let mut g = Game {
        reference: String::from("g1"),
        player0: A,
        player1: Some(B),
        winner: None,
        board,
        state: GameState::InProgress,
        prize: 200,
        turn: 0,
    };
    let res = play(A, B, &mut g, 0).unwrap();
    assert_eq!(res.outcome, Outcome::Draw);
    assert_eq!(g.state, GameState::Draw);
    assert_eq!(g.winner, None);
    assert_eq!(cell(&g, 0, 0), Some(0));
    assert_eq!(res.payouts.len(), 2);
    assert_eq!(res.payouts[0].recipient, A);
    assert_eq!(res.payouts[0].amount, 100);
    assert_eq!(res.payouts[1].recipient, B);
    assert_eq!(res.payouts[1].amount, 100);
    let total: u64 = res.payouts.iter().map(|p| p.amount).sum();
    assert_eq!(total, g.prize);
}
