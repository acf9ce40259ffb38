//! The four operations of the engine: create, cancel, join, and play.
//!
//! Each operation is a pure validate-then-apply step: every precondition is
//! checked before any mutation, so a rejected operation returns an error
//! kind and leaves the record exactly as it was. Fund movement is never
//! performed here; terminal operations return a payout plan for the
//! surrounding system's ledger to execute.

use vstd::prelude::*;

use crate::errors::SolConnectFourError;
use crate::escrow::{payout_plan, plan_total, PayoutEntry, Settlement};
use crate::state::{Game, GameState, PlayerId};

verus! {

/// Creates a new game record for `signer` with the given reference and an
/// initial commitment of `lamports`. The stake is fixed right here as twice
/// the commitment; the joiner owes the other half on joining. Global
/// uniqueness of `reference` is owed by the store that keeps the records,
/// not by the engine.
pub fn new_game(signer: PlayerId, reference: String, lamports: u64) -> (g: Game)
    requires
        lamports <= u64::MAX / 2,
    ensures
        g.wf(),
        g.reference == reference,
        g.player0 == signer,
        g.player1 is None,
        g.winner is None,
        g.state == GameState::NotStarted,
        g.prize == 2 * lamports,
        g.turn == 0,
        forall|i: int| 0 <= i < 42 ==> #[trigger] g.board@[i] is None,
{
    let mut board: Vec<Option<u8>> = Vec::new();
    let mut i: usize = 0;
    while i < 42
        invariant
            i <= 42,
            board@.len() == i,
            forall|j: int| 0 <= j < i ==> #[trigger] board@[j] is None,
        decreases 42 - i,
    {
        board.push(None);
        i += 1;
    }
    Game {
        reference,
        player0: signer,
        player1: None,
        winner: None,
        board,
        state: GameState::NotStarted,
        prize: lamports * 2,
        turn: 0,
    }
}

/// Cancels a game that has not started yet. Only the creator may cancel,
/// and only before anyone has joined. The returned refund plan gives the
/// creator back half the recorded stake — exactly the commitment they put
/// in, since nobody else has contributed yet. The caller is expected to
/// destroy the record afterwards.
pub fn cancel_game(caller: PlayerId, game: &Game) -> (r: Result<
    Vec<PayoutEntry>,
    SolConnectFourError,
>)
    requires
        game.wf(),
    ensures
        r is Ok <==> caller == game.player0 && game.state == GameState::NotStarted,
        r matches Ok(plan) ==> plan@.len() == 1 && plan@[0].recipient == game.player0
            && plan@[0].amount == game.prize / 2 && plan_total(plan@) == game.prize / 2,
        r matches Err(e) ==> (e == SolConnectFourError::InvalidPlayer <==> caller != game.player0)
            && (e == SolConnectFourError::GameStarted <==> caller == game.player0 && game.state
            != GameState::NotStarted),
{
    if caller != game.player0 {
        return Err(SolConnectFourError::InvalidPlayer);
    }
    if game.state != GameState::NotStarted {
        return Err(SolConnectFourError::GameStarted);
    }
    Ok(payout_plan(Settlement::Cancelled, game.player0, game.player0, game.prize))
}

/// Joins `caller` as the second player of a not-yet-started game, with a
/// commitment of `lamports`. The commitment must equal half the stake (the
/// same amount the creator put in), the seat must be free, and a player
/// cannot join their own game. On success the game moves to `InProgress`
/// with the creator to move; nothing else about the record changes.
pub fn join_game(caller: PlayerId, game: &mut Game, lamports: u64) -> (r: Result<
    (),
    SolConnectFourError,
>)
    requires
        old(game).wf(),
    ensures
        final(game).wf(),
        r is Ok <==> old(game).player1 is None && caller != old(game).player0 && lamports == old(
            game,
        ).prize / 2,
        r is Ok ==> final(game).player1 == Some(caller) && final(game).state
            == GameState::InProgress,
        r is Err ==> *final(game) == *old(game),
        final(game).reference == old(game).reference,
        final(game).player0 == old(game).player0,
        final(game).winner == old(game).winner,
        final(game).board == old(game).board,
        final(game).prize == old(game).prize,
        final(game).turn == old(game).turn,
        r matches Err(e) ==> (e == SolConnectFourError::GameFull <==> old(
            game,
        ).player1 is Some) && (e == SolConnectFourError::InvalidPlayer <==> old(
            game,
        ).player1 is None && caller == old(game).player0) && (e
            == SolConnectFourError::InvalidCommitment <==> old(game).player1 is None && caller
            != old(game).player0 && lamports != old(game).prize / 2),
{
    if game.player1.is_some() {
        return Err(SolConnectFourError::GameFull);
    }
    if caller == game.player0 {
        return Err(SolConnectFourError::InvalidPlayer);
    }
    if lamports != game.prize / 2 {
        return Err(SolConnectFourError::InvalidCommitment);
    }
    game.player1 = Some(caller);
    game.state = GameState::InProgress;
    Ok(())
}

/// What a legal move produced.
#[derive(Clone, Copy, Debug, PartialEq, Eq, Structural)]
pub enum Outcome {
    /// The game goes on; the turn has passed to the other player.
    Continue,
    /// The mover (player index 0 or 1) completed four in a row.
    Win(u8),
    /// The move filled the last cell without completing four in a row.
    Draw,
}

/// Outcome of a legal move together with the payout plan it settled. The
/// plan is empty exactly when the game continues.
#[derive(Clone, Debug, PartialEq, Eq)]
pub struct PlayResult {
    /// How the move ended, or did not end, the game.
    pub outcome: Outcome,
    /// What the ledger now owes: the full stake to a winner, or half to
    /// each player on a draw.
    pub payouts: Vec<PayoutEntry>,
}

/// The pair (signer, opponent) names exactly the two participants of `g`,
/// with `opponent` the actual counter-party of `signer`. The opponent's
/// identity arrives separately from the record, so a move must prove the
/// two consistent before any payout can name the opponent.
pub open spec fn valid_player_pair(g: Game, signer: PlayerId, opponent: PlayerId) -> bool {
    ||| (signer == g.player0 && g.player1 == Some(opponent))
    ||| (g.player1 == Some(signer) && opponent == g.player0)
}

/// The index of `signer` among the participants: 0 for the creator,
/// 1 otherwise.
pub open spec fn player_index(g: Game, signer: PlayerId) -> u8 {
    if signer == g.player0 {
        0
    } else {
        1
    }
}

/// The first rule a `play` call violates, in the fixed order the engine
/// checks them, or `None` when the move is legal.
pub open spec fn play_rejection(
    g: Game,
    signer: PlayerId,
    opponent: PlayerId,
    col: u8,
) -> Option<SolConnectFourError> {
    if g.is_terminal() {
        Some(SolConnectFourError::GameOver)
    } else if g.state != GameState::InProgress {
        Some(SolConnectFourError::GameNotStarted)
    } else if !valid_player_pair(g, signer, opponent) {
        Some(SolConnectFourError::InvalidPlayer)
    } else if g.turn != player_index(g, signer) {
        Some(SolConnectFourError::NotYourTurn)
    } else if col >= 7 {
        Some(SolConnectFourError::InvalidColumn)
    } else if g.column_full(col as int) {
        Some(SolConnectFourError::InvalidRow)
    } else {
        None
    }
}

/// Plays one move: `signer` drops a marker into `col`, claiming `opponent`
/// as the counter-party. All rules are checked, in order, before any
/// mutation; a rejected move names the first violated rule and leaves the
/// record unchanged. A legal move lands in the lowest empty row of the
/// column, then termination is evaluated from that cell alone: a win is
/// scored before a draw is even considered, the turn passes only on a move
/// that terminates nothing, and a terminating move settles the stake into
/// the returned payout plan.
pub fn play(signer: PlayerId, opponent: PlayerId, game: &mut Game, col: u8) -> (r: Result<
    PlayResult,
    SolConnectFourError,
>)
    requires
        old(game).wf(),
    ensures
        final(game).wf(),
        // A rejection reports the first violated rule and mutates nothing.
        r matches Err(e) ==> Some(e) == play_rejection(*old(game), signer, opponent, col)
            && *final(game) == *old(game),
        r is Ok <==> play_rejection(*old(game), signer, opponent, col) is None,
        // Phase guard: a terminal record rejects every move with GameOver.
        old(game).is_terminal() ==> (r matches Err(e) && e == SolConnectFourError::GameOver)
            && *final(game) == *old(game),
        // Identity, reference and stake never change.
        final(game).reference == old(game).reference,
        final(game).player0 == old(game).player0,
        final(game).player1 == old(game).player1,
        final(game).prize == old(game).prize,
        // Monotonic fill: a cell once set is never reset or overwritten.
        forall|i: int|
            0 <= i < 42 && old(game).board@[i] is Some ==> #[trigger] final(game).board@[i] == old(
                game,
            ).board@[i],
        r matches Ok(res) ==> ({
            let row = old(game).landing_row(col as int);
            // Gravity: the marker lands in the lowest empty row of the
            // column, and nothing else on the board changes.
            &&& 0 <= row < 6
            &&& old(game).cell(row, col as int) is None
            &&& forall|r2: int| row < r2 < 6 ==> #[trigger] old(game).cell(r2, col as int) is Some
            &&& final(game).board@ == old(game).board@.update(
                row * 7 + col,
                Some(old(game).turn),
            )
            &&& match res.outcome {
                Outcome::Win(w) => {
                    &&& w == old(game).turn
                    &&& final(game).wins_at(row, col as int)
                    &&& final(game).state == (if w == 0 {
                        GameState::Player0Won
                    } else {
                        GameState::Player1Won
                    })
                    &&& final(game).winner == Some(signer)
                    &&& final(game).turn == old(game).turn
                    &&& res.payouts@.len() == 1
                    &&& res.payouts@[0].recipient == signer
                    &&& res.payouts@[0].amount == old(game).prize
                    &&& plan_total(res.payouts@) == old(game).prize
                },
                Outcome::Draw => {
                    &&& !final(game).wins_at(row, col as int)
                    &&& final(game).board_full()
                    &&& final(game).state == GameState::Draw
                    &&& final(game).winner is None
                    &&& final(game).turn == old(game).turn
                    &&& res.payouts@.len() == 2
                    &&& res.payouts@[0].recipient == old(game).player0
                    &&& res.payouts@[0].amount == old(game).prize / 2
                    &&& Some(res.payouts@[1].recipient) == old(game).player1
                    &&& res.payouts@[1].amount == old(game).prize / 2
                    &&& plan_total(res.payouts@) == old(game).prize
                },
                Outcome::Continue => {
                    &&& !final(game).wins_at(row, col as int)
                    &&& !final(game).board_full()
                    &&& final(game).state == GameState::InProgress
                    &&& final(game).winner is None
                    &&& final(game).turn == 1 - old(game).turn
                    &&& res.payouts@.len() == 0
                },
            }
        }),
{
    // Rule 1: the game must not be over already.
    if game.state == GameState::Player0Won || game.state == GameState::Player1Won || game.state
        == GameState::Draw {
        return Err(SolConnectFourError::GameOver);
    }
    // Rule 2: the game must be in progress (someone must have joined).
    if game.state != GameState::InProgress {
        return Err(SolConnectFourError::GameNotStarted);
    }
    let player1 = game.player1.unwrap();
    // Rule 3: signer and claimed opponent must be exactly the two players,
    // with the claim naming the signer's actual counter-party.
    let pair_ok = (signer == game.player0 && opponent == player1) || (signer == player1 && opponent
        == game.player0);
    if !pair_ok {
        return Err(SolConnectFourError::InvalidPlayer);
    }
    // Rule 4: it must be the signer's turn.
    let idx: u8 = if signer == game.player0 {
        0
    } else {
        1
    };
    if game.turn != idx {
        return Err(SolConnectFourError::NotYourTurn);
    }
    // Rule 5: the column must exist.
    if col >= 7 {
        return Err(SolConnectFourError::InvalidColumn);
    }
    proof {
        game.lemma_gravity(col as int);
    }
    // Rule 6: the column must have room; gravity picks the landing row.
    let row = match game.find_landing_row(col as usize) {
        Some(r) => r,
        None => {
            return Err(SolConnectFourError::InvalidRow);
        },
    };
    // Rule 7: the landing cell must be empty — redundant with the scan
    // above, enforced defensively all the same.
    if game.board[row * 7 + (col as usize)].is_some() {
        return Err(SolConnectFourError::CellNotEmpty);
    }
    let mover: u8 = game.turn;
    game.board[row * 7 + (col as usize)] = Some(mover);
    let ghost mid = *game;
    if game.check_winner(row, col as usize) {
        game.winner = Some(signer);
        game.state = if mover == 0 {
            GameState::Player0Won
        } else {
            GameState::Player1Won
        };
        proof {
            Game::lemma_win_depends_on_board_only(mid, *game, row as int, col as int);
        }
        let payouts = payout_plan(Settlement::Won(mover), game.player0, player1, game.prize);
        return Ok(PlayResult { outcome: Outcome::Win(mover), payouts });
    }
    if game.check_draw() {
        game.state = GameState::Draw;
        proof {
            Game::lemma_win_depends_on_board_only(mid, *game, row as int, col as int);
        }
        let payouts = payout_plan(Settlement::Drawn, game.player0, player1, game.prize);
        return Ok(PlayResult { outcome: Outcome::Draw, payouts });
    }
    game.turn = if game.turn == 0 {
        1
    } else {
        0
    };
    proof {
        Game::lemma_win_depends_on_board_only(mid, *game, row as int, col as int);
    }
    Ok(PlayResult { outcome: Outcome::Continue, payouts: Vec::new() })
}

} // verus!
