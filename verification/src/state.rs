//! The game record: board, players, phase, and the win/draw detection engine.

use vstd::prelude::*;

verus! {

/// Identity of a participant, as an opaque numeric handle. The engine only
/// ever compares identities for equality; the surrounding system chooses
/// what the number stands for.
#[derive(Clone, Copy, Debug, PartialEq, Eq, Structural, Hash)]
pub struct PlayerId(pub u64);

/// Lifecycle phase of one match. Phases only ever advance along
/// `NotStarted -> InProgress -> {Player0Won | Player1Won | Draw}`.
#[derive(Clone, Copy, Debug, PartialEq, Eq, Structural)]
pub enum GameState {
    NotStarted,
    InProgress,
    Player0Won,
    Player1Won,
    Draw,
}

/// One match: the authoritative in-memory record.
///
/// The board is a flat vector of 42 cells, row-major: the cell at row `r`
/// and column `c` sits at index `r * 7 + c`. Row 0 is the top of the grid
/// and row 5 the bottom, so a dropped marker lands in the highest-indexed
/// empty row of its column. A cell holds `None` when empty, or `Some(0)` /
/// `Some(1)` for a marker of player 0 / player 1.
pub struct Game {
    /// Caller-chosen unique identifier for the match, immutable.
    pub reference: String,
    /// The creator of the game, who moves first.
    pub player0: PlayerId,
    /// The joiner; absent exactly while the game has not started.
    pub player1: Option<PlayerId>,
    /// The winner's identity, set only when a won phase is reached.
    pub winner: Option<PlayerId>,
    /// The 6 x 7 grid, flattened row-major.
    pub board: Vec<Option<u8>>,
    /// Current lifecycle phase.
    pub state: GameState,
    /// Total escrowed amount, fixed at creation as twice the creator's
    /// commitment (hence always even).
    pub prize: u64,
    /// Which player index (0 or 1) must move next; meaningful only while
    /// the game is in progress.
    pub turn: u8,
}

impl Game {
    /// The cell at row `r`, column `c` of the grid.
    pub open spec fn cell(self, r: int, c: int) -> Option<u8> {
        self.board@[r * 7 + c]
    }

    /// Well-formedness of a record: the shape every operation preserves.
    pub open spec fn wf(self) -> bool {
        &&& self.board@.len() == 42
        &&& self.turn < 2
        &&& forall|i: int|
            0 <= i < 42 ==> (#[trigger] self.board@[i] matches Some(p) ==> p < 2)
        &&& (self.player1 is None <==> self.state == GameState::NotStarted)
        &&& (self.player1 matches Some(p1) ==> p1 != self.player0)
        &&& self.prize % 2 == 0
        &&& (self.state == GameState::Player0Won ==> self.winner == Some(self.player0))
        &&& (self.state == GameState::Player1Won ==> self.winner == self.player1)
        &&& (self.state == GameState::NotStarted || self.state == GameState::InProgress
            || self.state == GameState::Draw ==> self.winner is None)
    }

    /// A terminal phase: won by either player, or drawn.
    pub open spec fn is_terminal(self) -> bool {
        self.state == GameState::Player0Won || self.state == GameState::Player1Won
            || self.state == GameState::Draw
    }

    /// Every cell of the board is occupied.
    pub open spec fn board_full(self) -> bool {
        forall|i: int| 0 <= i < 42 ==> #[trigger] self.board@[i] is Some
    }

    /// A column with no empty cell left.
    pub open spec fn column_full(self, c: int) -> bool {
        forall|r: int| 0 <= r < 6 ==> #[trigger] self.cell(r, c) is Some
    }

    /// The window of four cells in row `row` starting at column `c0` and
    /// running right is wholly owned by `player`.
    pub open spec fn horizontal_window(self, player: u8, row: int, c0: int) -> bool {
        self.cell(row, c0) == Some(player) && self.cell(row, c0 + 1) == Some(player)
            && self.cell(row, c0 + 2) == Some(player) && self.cell(row, c0 + 3) == Some(player)
    }

    /// Some four-wide window of row `row` is wholly owned by `player`.
    pub open spec fn horizontal_win(self, player: u8, row: int) -> bool {
        exists|c0: int| 0 <= c0 <= 3 && #[trigger] self.horizontal_window(player, row, c0)
    }

    /// The window of four cells in column `col` starting at row `r0` and
    /// running down is wholly owned by `player`.
    pub open spec fn vertical_window(self, player: u8, r0: int, col: int) -> bool {
        self.cell(r0, col) == Some(player) && self.cell(r0 + 1, col) == Some(player)
            && self.cell(r0 + 2, col) == Some(player) && self.cell(r0 + 3, col) == Some(player)
    }

    /// Some four-tall window of column `col` is wholly owned by `player`.
    pub open spec fn vertical_win(self, player: u8, col: int) -> bool {
        exists|r0: int| 0 <= r0 <= 2 && #[trigger] self.vertical_window(player, r0, col)
    }

    /// The run of four cells starting at (r0, c0) and stepping down-right
    /// stays inside the grid and is wholly owned by `player`.
    pub open spec fn diag_down_right_window(self, player: u8, r0: int, c0: int) -> bool {
        0 <= r0 && r0 + 3 < 6 && 0 <= c0 && c0 + 3 < 7
            && self.cell(r0, c0) == Some(player) && self.cell(r0 + 1, c0 + 1) == Some(player)
            && self.cell(r0 + 2, c0 + 2) == Some(player)
            && self.cell(r0 + 3, c0 + 3) == Some(player)
    }

    /// The run of four cells starting at (r0, c0) and stepping down-left
    /// stays inside the grid and is wholly owned by `player`.
    pub open spec fn diag_down_left_window(self, player: u8, r0: int, c0: int) -> bool {
        0 <= r0 && r0 + 3 < 6 && 3 <= c0 && c0 < 7
            && self.cell(r0, c0) == Some(player) && self.cell(r0 + 1, c0 - 1) == Some(player)
            && self.cell(r0 + 2, c0 - 2) == Some(player)
            && self.cell(r0 + 3, c0 - 3) == Some(player)
    }

    /// A diagonal win through (row, col): some in-bounds diagonal run of
    /// four that contains the cell — on either diagonal orientation, with
    /// the cell at any of the four positions of the run — is wholly owned
    /// by `player`. A down-right run containing the cell at position j
    /// starts j steps up-left of it, a down-left run j steps up-right.
    pub open spec fn diagonal_win(self, player: u8, row: int, col: int) -> bool {
        ||| self.diag_down_right_window(player, row, col)
        ||| self.diag_down_right_window(player, row - 1, col - 1)
        ||| self.diag_down_right_window(player, row - 2, col - 2)
        ||| self.diag_down_right_window(player, row - 3, col - 3)
        ||| self.diag_down_left_window(player, row, col)
        ||| self.diag_down_left_window(player, row - 1, col + 1)
        ||| self.diag_down_left_window(player, row - 2, col + 2)
        ||| self.diag_down_left_window(player, row - 3, col + 3)
    }

    /// The placement at (row, col) is a winning one: the cell is occupied
    /// and its owner completes a horizontal window in that row, a vertical
    /// window in that column, or a diagonal run of four through the cell.
    pub open spec fn wins_at(self, row: int, col: int) -> bool {
        self.cell(row, col) matches Some(p) && (self.horizontal_win(p, row)
            || self.vertical_win(p, col) || self.diagonal_win(p, row, col))
    }

    /// One direction of `lemma_win_depends_on_board_only`.
    proof fn lemma_win_transfers(a: Game, b: Game, row: int, col: int)
        requires
            a.board@ == b.board@,
            a.wins_at(row, col),
        ensures
            b.wins_at(row, col),
    {
        match a.cell(row, col) {
            Some(p) => {
                if a.horizontal_win(p, row) {
                    let c0 = choose|c0: int| 0 <= c0 <= 3 && a.horizontal_window(p, row, c0);
                    assert(b.horizontal_window(p, row, c0));
                } else if a.vertical_win(p, col) {
                    let r0 = choose|r0: int| 0 <= r0 <= 2 && a.vertical_window(p, r0, col);
                    assert(b.vertical_window(p, r0, col));
                } else {
                    assert(b.diagonal_win(p, row, col));
                }
            },
            None => {},
        }
    }

    /// Win and draw detection read only the board, so two records with
    /// equal boards agree on both, whatever their other fields say.
    pub proof fn lemma_win_depends_on_board_only(a: Game, b: Game, row: int, col: int)
        requires
            a.board@ == b.board@,
        ensures
            a.wins_at(row, col) == b.wins_at(row, col),
            a.board_full() == b.board_full(),
    {
        if a.wins_at(row, col) {
            Self::lemma_win_transfers(a, b, row, col);
        }
        if b.wins_at(row, col) {
            Self::lemma_win_transfers(b, a, row, col);
        }
    }

    /// The landing row for column `c` when the scan starts at row `r` and
    /// walks up through the grid (indices `r, r - 1, ...`): the first empty
    /// row met, or -1 when rows `0..=r` are all occupied.
    pub open spec fn landing_row_from(self, c: int, r: int) -> int
        decreases r + 1,
    {
        if r < 0 {
            -1
        } else if self.cell(r, c) is None {
            r
        } else {
            self.landing_row_from(c, r - 1)
        }
    }

    /// The landing row of column `c` under gravity-drop semantics: the
    /// lowest empty row of the column, or -1 when the column is full.
    pub open spec fn landing_row(self, c: int) -> int {
        self.landing_row_from(c, 5)
    }

    /// Gravity characterization of `landing_row_from`: the scan returns -1
    /// exactly when rows 0..=r are all occupied, and otherwise the lowest
    /// empty row among them.
    proof fn lemma_landing_row_from(self, c: int, r: int)
        requires
            -1 <= r < 6,
        ensures
            -1 <= self.landing_row_from(c, r) <= r,
            self.landing_row_from(c, r) == -1 <==> (forall|r2: int|
                0 <= r2 <= r ==> #[trigger] self.cell(r2, c) is Some),
            self.landing_row_from(c, r) >= 0 ==> self.cell(self.landing_row_from(c, r), c) is None
                && (forall|r2: int|
                self.landing_row_from(c, r) < r2 <= r ==> #[trigger] self.cell(r2, c) is Some),
        decreases r + 1,
    {
        if r >= 0 && self.cell(r, c) is Some {
            self.lemma_landing_row_from(c, r - 1);
        }
    }

    /// Gravity law: in a column that is not full, the landing row is an
    /// empty cell with every row below it occupied; a full column has no
    /// landing row.
    pub proof fn lemma_gravity(self, c: int)
        requires
            0 <= c < 7,
        ensures
            self.column_full(c) <==> self.landing_row(c) == -1,
            !self.column_full(c) ==> 0 <= self.landing_row(c) < 6
                && self.cell(self.landing_row(c), c) is None
                && (forall|r: int|
                self.landing_row(c) < r < 6 ==> #[trigger] self.cell(r, c) is Some),
    {
        self.lemma_landing_row_from(c, 5);
    }

    /// Finds the landing row of `col`: scans from the bottom row upward and
    /// returns the first empty row, or `None` when the column is full.
    pub(crate) fn find_landing_row(&self, col: usize) -> (res: Option<usize>)
        requires
            self.wf(),
            col < 7,
        ensures
            res matches Some(r) ==> r < 6 && r == self.landing_row(col as int),
            res is None <==> self.column_full(col as int),
    {
        proof {
            self.lemma_gravity(col as int);
        }
        let mut r: usize = 6;
        while r > 0
            invariant
                self.wf(),
                col < 7,
                r <= 6,
                forall|r2: int| r <= r2 < 6 ==> #[trigger] self.cell(r2, col as int) is Some,
            decreases r,
        {
            r -= 1;
            if self.board[r * 7 + col].is_none() {
                proof {
                    // Row r is empty and every row below it is occupied,
                    // so the scan from the bottom stops exactly at r.
                    self.lemma_landing_row_unique(col as int, r as int);
                }
                return Some(r);
            }
        }
        None
    }

    /// A row that is empty with everything below it occupied is the
    /// landing row.
    proof fn lemma_landing_row_unique(self, c: int, r: int)
        requires
            0 <= r < 6,
            self.cell(r, c) is None,
            forall|r2: int| r < r2 < 6 ==> #[trigger] self.cell(r2, c) is Some,
        ensures
            self.landing_row(c) == r,
    {
        self.lemma_landing_row_from(c, 5);
        let lr = self.landing_row(c);
        if lr == -1 {
            assert(self.cell(r, c) is Some);
        } else if lr < r {
            assert(self.cell(r, c) is Some);
        } else if lr > r {
            assert(self.cell(lr, c) is Some);
        }
    }

    /// Whether `self.board[r][c] == Some(player)`, as executable code.
    fn cell_is(&self, r: usize, c: usize, player: u8) -> (b: bool)
        requires
            self.wf(),
            r < 6,
            c < 7,
        ensures
            b == (self.cell(r as int, c as int) == Some(player)),
    {
        match self.board[r * 7 + c] {
            Some(p) => p == player,
            None => false,
        }
    }

    /// Slides a four-wide window across row `row` looking for a full run
    /// owned by `player`.
    fn check_horizontal_win(&self, player: u8, row: usize) -> (r: bool)
        requires
            self.wf(),
            row < 6,
        ensures
            r == self.horizontal_win(player, row as int),
    {
        let mut c0: usize = 0;
        while c0 < 4
            invariant
                self.wf(),
                row < 6,
                c0 <= 4,
                forall|c: int| 0 <= c < c0 ==> !#[trigger] self.horizontal_window(player, row as int, c),
            decreases 4 - c0,
        {
            if self.cell_is(row, c0, player) && self.cell_is(row, c0 + 1, player)
                && self.cell_is(row, c0 + 2, player) && self.cell_is(row, c0 + 3, player) {
                assert(self.horizontal_window(player, row as int, c0 as int));
                return true;
            }
            assert(!self.horizontal_window(player, row as int, c0 as int));
            c0 += 1;
        }
        false
    }

    /// Slides a four-tall window down column `col` looking for a full run
    /// owned by `player`.
    fn check_vertical_win(&self, player: u8, col: usize) -> (r: bool)
        requires
            self.wf(),
            col < 7,
        ensures
            r == self.vertical_win(player, col as int),
    {
        let mut r0: usize = 0;
        while r0 < 3
            invariant
                self.wf(),
                col < 7,
                r0 <= 3,
                forall|r2: int| 0 <= r2 < r0 ==> !#[trigger] self.vertical_window(player, r2, col as int),
            decreases 3 - r0,
        {
            if self.cell_is(r0, col, player) && self.cell_is(r0 + 1, col, player)
                && self.cell_is(r0 + 2, col, player) && self.cell_is(r0 + 3, col, player) {
                assert(self.vertical_window(player, r0 as int, col as int));
                return true;
            }
            assert(!self.vertical_window(player, r0 as int, col as int));
            r0 += 1;
        }
        false
    }

    /// Whether the down-right run of four starting at (r0, c0) is wholly
    /// owned by `player`; the caller guarantees the run stays in bounds.
    fn dr_run_is(&self, player: u8, r0: usize, c0: usize) -> (b: bool)
        requires
            self.wf(),
            r0 + 3 < 6,
            c0 + 3 < 7,
        ensures
            b == self.diag_down_right_window(player, r0 as int, c0 as int),
    {
        self.cell_is(r0, c0, player) && self.cell_is(r0 + 1, c0 + 1, player)
            && self.cell_is(r0 + 2, c0 + 2, player) && self.cell_is(r0 + 3, c0 + 3, player)
    }

    /// Whether the down-left run of four starting at (r0, c0) is wholly
    /// owned by `player`; the caller guarantees the run stays in bounds.
    fn dl_run_is(&self, player: u8, r0: usize, c0: usize) -> (b: bool)
        requires
            self.wf(),
            r0 + 3 < 6,
            3 <= c0 < 7,
        ensures
            b == self.diag_down_left_window(player, r0 as int, c0 as int),
    {
        self.cell_is(r0, c0, player) && self.cell_is(r0 + 1, c0 - 1, player)
            && self.cell_is(r0 + 2, c0 - 2, player) && self.cell_is(r0 + 3, c0 - 3, player)
    }

    /// Tests every diagonal run of four containing (row, col), on both
    /// diagonal orientations, wherever the whole run stays in bounds: the
    /// cell may sit at any of the four positions of the run.
    fn check_diagonal_win(&self, player: u8, row: usize, col: usize) -> (r: bool)
        requires
            self.wf(),
            row < 6,
            col < 7,
        ensures
            r == self.diagonal_win(player, row as int, col as int),
    {
        // Down-right runs, with (row, col) at position 0, 1, 2 or 3.
        if row + 3 < 6 && col + 3 < 7 && self.dr_run_is(player, row, col) {
            return true;
        }
        if row >= 1 && row + 2 < 6 && col >= 1 && col + 2 < 7
            && self.dr_run_is(player, row - 1, col - 1) {
            return true;
        }
        if row >= 2 && row + 1 < 6 && col >= 2 && col + 1 < 7
            && self.dr_run_is(player, row - 2, col - 2) {
            return true;
        }
        if row >= 3 && col >= 3 && self.dr_run_is(player, row - 3, col - 3) {
            return true;
        }
        // Down-left runs, with (row, col) at position 0, 1, 2 or 3.
        if row + 3 < 6 && col >= 3 && self.dl_run_is(player, row, col) {
            return true;
        }
        if row >= 1 && row + 2 < 6 && col >= 2 && col + 1 < 7
            && self.dl_run_is(player, row - 1, col + 1) {
            return true;
        }
        if row >= 2 && row + 1 < 6 && col >= 1 && col + 2 < 7
            && self.dl_run_is(player, row - 2, col + 2) {
            return true;
        }
        if row >= 3 && col + 3 < 7 && self.dl_run_is(player, row - 3, col + 3) {
            return true;
        }
        false
    }

    /// Evaluates whether the marker at (row, col) completes a win for its
    /// owner, checking the horizontal row, the vertical column, and every
    /// diagonal run of four through the cell.
    pub fn check_winner(&self, row: usize, col: usize) -> (r: bool)
        requires
            self.wf(),
            row < 6,
            col < 7,
            self.cell(row as int, col as int) is Some,
        ensures
            r == self.wins_at(row as int, col as int),
    {
        let player: u8 = self.board[row * 7 + col].unwrap();

        if self.check_horizontal_win(player, row) {
            return true;
        }
        if self.check_vertical_win(player, col) {
            return true;
        }
        if self.check_diagonal_win(player, row, col) {
            return true;
        }
        false
    }

    /// Reports whether the whole board is occupied (the draw condition).
    pub fn check_draw(&self) -> (r: bool)
        requires
            self.wf(),
        ensures
            r == self.board_full(),
    {
        let mut i: usize = 0;
        while i < 42
            invariant
                self.wf(),
                i <= 42,
                forall|j: int| 0 <= j < i ==> #[trigger] self.board@[j] is Some,
            decreases 42 - i,
        {
            if self.board[i].is_none() {
                return false;
            }
            i += 1;
        }
        true
    }
}

} // verus!
