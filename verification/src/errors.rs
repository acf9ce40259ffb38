//! Error kinds reported when an operation's preconditions are violated.

use vstd::prelude::*;

verus! {

/// Every rejection an operation can report. A rejected operation leaves the
/// game record untouched; the kind names the first rule that was violated.
#[derive(Clone, Copy, Debug, PartialEq, Eq, Structural)]
pub enum SolConnectFourError {
    /// Cancellation was requested after the game had already started.
    GameStarted,
    /// A join was requested but both seats are taken.
    GameFull,
    /// The caller (or the claimed opponent) is not the right participant.
    InvalidPlayer,
    /// A move was requested before a second player joined.
    GameNotStarted,
    /// The operation is only legal once the game has finished.
    GameInProgress,
    /// A move was requested after the game reached a terminal phase.
    GameOver,
    /// The caller moved out of turn.
    NotYourTurn,
    /// The chosen column has no empty cell left.
    InvalidRow,
    /// The chosen column index is outside the grid.
    InvalidColumn,
    /// The targeted cell is already occupied.
    CellNotEmpty,
    /// A join carried a commitment different from half the stake.
    InvalidCommitment,
}

} // verus!
