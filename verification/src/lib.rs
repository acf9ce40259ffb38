//! A verified Connect Four engine with stake escrow.
//!
//! Two players each commit an equal stake, then alternate dropping markers
//! into a 6-row by 7-column grid. The engine validates every operation
//! (correct phase, correct player, correct turn, legal column), applies
//! gravity-drop placement, detects wins in all four orientations from the
//! placed cell, detects draws, and computes the payout plan owed at
//! termination. Fund movement and record storage are left to the caller;
//! the engine only certifies who is owed how much.

pub mod errors;
pub mod escrow;
pub mod game;
pub mod laws;
pub mod state;
