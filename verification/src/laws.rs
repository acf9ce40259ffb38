//! Laws of the win engine: completing a run of four wins, and a run with
//! any cell altered is no longer a winning line.
//!
//! Each orientation recognizes a completed run wherever the final marker
//! sat inside it: horizontal and vertical detection slide a window over
//! the whole row or column, and diagonal detection tests every in-bounds
//! diagonal run of four that contains the placed cell.

use vstd::prelude::*;

use crate::state::Game;

verus! {

/// Placing the fourth marker anywhere in a wholly-owned horizontal window
/// makes that position a winning one.
pub proof fn lemma_horizontal_run_wins(g: Game, p: u8, row: int, c0: int, c: int)
    requires
        0 <= row < 6,
        0 <= c0,
        c0 + 3 < 7,
        c0 <= c <= c0 + 3,
        g.horizontal_window(p, row, c0),
    ensures
        g.wins_at(row, c),
{
    assert(g.horizontal_win(p, row));
    assert(g.cell(row, c) == Some(p));
}

/// Placing the fourth marker anywhere in a wholly-owned vertical window
/// makes that position a winning one.
pub proof fn lemma_vertical_run_wins(g: Game, p: u8, r0: int, col: int, r: int)
    requires
        0 <= r0,
        r0 + 3 < 6,
        0 <= col < 7,
        r0 <= r <= r0 + 3,
        g.vertical_window(p, r0, col),
    ensures
        g.wins_at(r, col),
{
    assert(g.vertical_win(p, col));
    assert(g.cell(r, col) == Some(p));
}

/// A wholly-owned down-right diagonal run of four is a win when evaluated
/// from any of its four cells.
pub proof fn lemma_diagonal_run_wins(g: Game, p: u8, r0: int, c0: int, j: int)
    requires
        0 <= j < 4,
        g.diag_down_right_window(p, r0, c0),
    ensures
        g.wins_at(r0 + j, c0 + j),
{
    assert(g.cell(r0 + j, c0 + j) == Some(p));
    assert(g.diagonal_win(p, r0 + j, c0 + j));
}

/// A wholly-owned down-left diagonal run of four is a win when evaluated
/// from any of its four cells.
pub proof fn lemma_antidiagonal_run_wins(g: Game, p: u8, r0: int, c0: int, j: int)
    requires
        0 <= j < 4,
        g.diag_down_left_window(p, r0, c0),
    ensures
        g.wins_at(r0 + j, c0 - j),
{
    assert(g.cell(r0 + j, c0 - j) == Some(p));
    assert(g.diagonal_win(p, r0 + j, c0 - j));
}

/// Altering any one cell of a horizontal window — to the other player or
/// back to empty — breaks that window as a winning line.
pub proof fn lemma_broken_horizontal_window(g: Game, p: u8, row: int, c0: int, j: int)
    requires
        0 <= j < 4,
        g.cell(row, c0 + j) != Some(p),
    ensures
        !g.horizontal_window(p, row, c0),
{
}

/// Altering any one cell of a vertical window breaks that window as a
/// winning line.
pub proof fn lemma_broken_vertical_window(g: Game, p: u8, r0: int, col: int, j: int)
    requires
        0 <= j < 4,
        g.cell(r0 + j, col) != Some(p),
    ensures
        !g.vertical_window(p, r0, col),
{
}

/// Altering any one cell of a down-right diagonal run breaks that run as
/// a winning line.
pub proof fn lemma_broken_diagonal_run(g: Game, p: u8, r0: int, c0: int, j: int)
    requires
        0 <= j < 4,
        g.cell(r0 + j, c0 + j) != Some(p),
    ensures
        !g.diag_down_right_window(p, r0, c0),
{
}

/// Altering any one cell of a down-left diagonal run breaks that run as a
/// winning line.
pub proof fn lemma_broken_antidiagonal_run(g: Game, p: u8, r0: int, c0: int, j: int)
    requires
        0 <= j < 4,
        g.cell(r0 + j, c0 - j) != Some(p),
    ensures
        !g.diag_down_left_window(p, r0, c0),
{
}

} // verus!
