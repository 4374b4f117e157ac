use vstd::prelude::*;

verus! {

/// The state of a single cell on the board.
#[derive(Debug, Clone, Copy, PartialEq, Eq, Structural)]
pub enum State {
    /// The human player's mark.
    X,
    /// The CPU's mark.
    O,
    /// An empty, available cell.
    Empty,
}

/// Why an attempted player move was rejected. Every failure leaves the game
/// unchanged.
#[derive(Debug, Clone, Copy, PartialEq, Eq, Structural)]
pub enum PickError {
    /// The chosen cell already holds a mark.
    AreaOccupied,
    /// The board has not been created yet (neither started nor reset).
    MovesMapNotInitialized,
    /// The chosen index lies outside 0..=8.
    OutOfBounds,
}

/// The result of checking the board for a terminal state.
#[derive(Debug, Clone, Copy, PartialEq, Eq, Structural)]
pub enum CheckResult {
    /// The queried mark occupies a full line.
    Win,
    /// No line is occupied and the board is full.
    Tie,
    /// The round is still open.
    Continue,
}

/// The running score. It persists across board resets and only a fresh engine
/// starts it over.
#[derive(Debug, Clone, Copy, PartialEq, Eq, Structural)]
pub struct Score {
    /// Rounds won by the human player.
    pub player: u16,
    /// Rounds won by the CPU.
    pub cpu: u16,
    /// Rounds that ended in a tie.
    pub tie: u16,
}

/// The board with all nine cells empty.
pub open spec fn empty_board() -> Seq<State> {
    Seq::new(9, |i: int| State::Empty)
}

/// The cells at indices `i`, `j` and `k` all hold mark `s`.
pub open spec fn line_wins(b: Seq<State>, s: State, i: int, j: int, k: int) -> bool {
    b[i] == s && b[j] == s && b[k] == s
}

/// Mark `s` occupies one of the eight winning lines: three rows, three
/// columns, two diagonals, each a fixed triple of indices of the row-major
/// 3x3 grid.
pub open spec fn wins(b: Seq<State>, s: State) -> bool {
    ||| line_wins(b, s, 0, 1, 2)
    ||| line_wins(b, s, 3, 4, 5)
    ||| line_wins(b, s, 6, 7, 8)
    ||| line_wins(b, s, 0, 3, 6)
    ||| line_wins(b, s, 1, 4, 7)
    ||| line_wins(b, s, 2, 5, 8)
    ||| line_wins(b, s, 0, 4, 8)
    ||| line_wins(b, s, 2, 4, 6)
}

/// Every cell of the board holds a mark.
pub open spec fn full(b: Seq<State>) -> bool {
    forall|i: int| 0 <= i < 9 ==> b[i] != State::Empty
}

/// The outcome of a check of board `b` for mark `s`: a win beats a tie, and
/// a tie needs a full board.
pub open spec fn outcome(b: Seq<State>, s: State) -> CheckResult {
    if wins(b, s) {
        CheckResult::Win
    } else if full(b) {
        CheckResult::Tie
    } else {
        CheckResult::Continue
    }
}

/// The score after recording one round outcome: `0` a tie, `1` a player win,
/// `2` a CPU win; any other code changes nothing.
pub open spec fn bump(sc: Score, turn: u8) -> Score {
    if turn == 0 {
        Score { player: sc.player, cpu: sc.cpu, tie: (sc.tie + 1) as u16 }
    } else if turn == 1 {
        Score { player: (sc.player + 1) as u16, cpu: sc.cpu, tie: sc.tie }
    } else if turn == 2 {
        Score { player: sc.player, cpu: (sc.cpu + 1) as u16, tie: sc.tie }
    } else {
        sc
    }
}

/// Builds the nine empty cells of a fresh board.
fn nine_empty_cells() -> (v: Vec<State>)
    ensures
        v@ == empty_board(),
{
    let mut v: Vec<State> = Vec::new();
    let mut i: usize = 0;
    while i < 9
        invariant
            i <= 9,
            v@.len() == i as int,
            forall|j: int| 0 <= j < i ==> v@[j] == State::Empty,
        decreases 9 - i,
    {
        v.push(State::Empty);
        i = i + 1;
    }
    v
}

/// The tic-tac-toe engine: it owns the board, the score and the rules. The
/// board is absent until `reset` first creates it, and that absence is
/// reported distinctly from an empty board.
#[derive(Debug)]
pub struct Game {
    /// Whether the board has been created; before that, `cells` is a mere
    /// placeholder and every move is refused.
    started: bool,
    /// The nine cells of the 3x3 grid in row-major order.
    cells: Vec<State>,
    /// The running score.
    score: Score,
}

impl Game {
    /// The board exists: `reset` has been called at least once.
    pub closed spec fn board_present(self) -> bool {
        self.started
    }

    /// The cells of the board, meaningful once the board is present.
    pub closed spec fn board(self) -> Seq<State> {
        self.cells@
    }

    /// The running score.
    pub closed spec fn score_of(self) -> Score {
        self.score
    }

    /// Structural invariant: the grid always holds exactly nine cells.
    /// Established by `new` and preserved by every operation.
    pub closed spec fn wf(self) -> bool {
        self.cells@.len() == 9
    }

    /// The outcome `check` reports for mark `s`: `Continue` while the board
    /// is absent, else the outcome of its cells.
    pub open spec fn check_spec(self, s: State) -> CheckResult {
        if self.board_present() {
            outcome(self.board(), s)
        } else {
            CheckResult::Continue
        }
    }

    /// A fresh engine: no board yet, all counters at zero.
    pub fn new() -> (g: Game)
        ensures
            g.wf(),
            !g.board_present(),
            g.score_of() == (Score { player: 0, cpu: 0, tie: 0 }),
    {
        Game {
            started: false,
            cells: nine_empty_cells(),
            score: Score { player: 0, cpu: 0, tie: 0 },
        }
    }

    /// Creates the board, or clears it between rounds: all nine cells become
    /// empty while the score keeps its counters.
    pub fn reset(&mut self)
        ensures
            final(self).wf(),
            final(self).board_present(),
            final(self).board() == empty_board(),
            final(self).score_of() == old(self).score_of(),
    {
        self.started = true;
        self.cells = nine_empty_cells();
    }

    /// Whether every cell holds a mark; an absent board is not full.
    pub fn is_full(&self) -> (r: bool)
        requires
            self.wf(),
        ensures
            r == (self.board_present() && full(self.board())),
    {
        if !self.started {
            return false;
        }
        let mut i: usize = 0;
        while i < 9
            invariant
                i <= 9,
                self.wf(),
                forall|j: int| 0 <= j < i ==> self.board()[j] != State::Empty,
            decreases 9 - i,
        {
            if self.cells[i] == State::Empty {
                return false;
            }
            i = i + 1;
        }
        true
    }

    /// Places the player's mark at `index`. The range is checked first, then
    /// that the board exists, then that the cell is free; a refusal names its
    /// reason and leaves the game untouched.
    pub fn pick_player(&mut self, index: usize) -> (r: Result<(), PickError>)
        requires
            old(self).wf(),
        ensures
            final(self).wf(),
            index > 8 ==> r == Err::<(), PickError>(PickError::OutOfBounds)
                && *final(self) == *old(self),
            index <= 8 && !old(self).board_present()
                ==> r == Err::<(), PickError>(PickError::MovesMapNotInitialized)
                && *final(self) == *old(self),
            index <= 8 && old(self).board_present()
                && old(self).board()[index as int] != State::Empty
                ==> r == Err::<(), PickError>(PickError::AreaOccupied)
                && *final(self) == *old(self),
            index <= 8 && old(self).board_present()
                && old(self).board()[index as int] == State::Empty
                ==> r == Ok::<(), PickError>(())
                && final(self).board_present()
                && final(self).board() == old(self).board().update(index as int, State::X)
                && final(self).score_of() == old(self).score_of(),
    {
        if index > 8 {
            return Err(PickError::OutOfBounds);
        }
        if !self.started {
            return Err(PickError::MovesMapNotInitialized);
        }
        if self.cells[index] != State::Empty {
            return Err(PickError::AreaOccupied);
        }
        self.cells.set(index, State::X);
        Ok(())
    }

    /// Places the CPU's mark on a random empty cell, chosen uniformly among
    /// the empty cells. On a full board it is a no-op; the board must already
    /// exist. Which empty cell is taken is not pinned down: only that exactly
    /// one previously empty cell now holds the CPU's mark.
    pub fn pick_cpu(&mut self)
        requires
            old(self).wf(),
            old(self).board_present(),
        ensures
            final(self).wf(),
            final(self).board_present(),
            final(self).score_of() == old(self).score_of(),
            full(old(self).board()) ==> *final(self) == *old(self),
            !full(old(self).board()) ==> (exists|i: int|
                0 <= i < 9 && old(self).board()[i] == State::Empty
                    && final(self).board() == old(self).board().update(i, State::O)),
    {
        let mut empties: Vec<usize> = Vec::new();
        let mut i: usize = 0;
        while i < 9
            invariant
                i <= 9,
                *self == *old(self),
                self.wf(),
                forall|k: int|
                    0 <= k < empties@.len() ==> empties@[k] < 9 && self.board()[empties@[k] as int]
                        == State::Empty,
                (exists|j: int| 0 <= j < i && self.board()[j] == State::Empty)
                    ==> empties@.len() > 0,
            decreases 9 - i,
        {
            if self.cells[i] == State::Empty {
                empties.push(i);
            }
            i = i + 1;
        }
        if empties.len() == 0 {
            return ;
        }
        let choice: usize = crate::rng::random_below(empties.len());
        let cell: usize = empties[choice];
        self.cells.set(cell, State::O);
    }

    /// Reports the outcome for mark `state`: a win if some line is fully
    /// `state`, else a tie if the board is full, else the round goes on. An
    /// absent board reports that the round goes on. The game is unchanged.
    pub fn check(&mut self, state: State) -> (r: CheckResult)
        requires
            old(self).wf(),
        ensures
            *final(self) == *old(self),
            r == old(self).check_spec(state),
    {
        if !self.started {
            return CheckResult::Continue;
        }
        if self.line_has(state, 0, 3, 6) || self.line_has(state, 1, 4, 7) || self.line_has(
            state,
            2,
            5,
            8,
        ) || self.line_has(state, 0, 1, 2) || self.line_has(state, 3, 4, 5) || self.line_has(
            state,
            6,
            7,
            8,
        ) || self.line_has(state, 0, 4, 8) || self.line_has(state, 2, 4, 6) {
            return CheckResult::Win;
        }
        if self.is_full() {
            return CheckResult::Tie;
        }
        CheckResult::Continue
    }

    /// Whether the three cells at `i`, `j`, `k` all hold mark `s`.
    fn line_has(&self, s: State, i: usize, j: usize, k: usize) -> (r: bool)
        requires
            self.wf(),
            i < 9,
            j < 9,
            k < 9,
        ensures
            r == line_wins(self.board(), s, i as int, j as int, k as int),
    {
        self.cells[i] == s && self.cells[j] == s && self.cells[k] == s
    }

    /// Records one round outcome: code `0` adds a tie, `1` a player win, `2`
    /// a CPU win; any other code changes nothing. Exactly one counter moves,
    /// by one, and the board is untouched.
    pub fn increase_score(&mut self, turn: u8)
        requires
            turn == 0 ==> old(self).score_of().tie < u16::MAX,
            turn == 1 ==> old(self).score_of().player < u16::MAX,
            turn == 2 ==> old(self).score_of().cpu < u16::MAX,
        ensures
            final(self).score_of() == bump(old(self).score_of(), turn),
            final(self).board_present() == old(self).board_present(),
            final(self).board() == old(self).board(),
            final(self).wf() == old(self).wf(),
    {
        match turn {
            0 => self.score.tie = self.score.tie + 1,
            1 => self.score.player = self.score.player + 1,
            2 => self.score.cpu = self.score.cpu + 1,
            _ => (),
        }
    }

    /// Reads the three counters of the running score.
    pub fn current_score(&self) -> (s: Score)
        ensures
            s == self.score_of(),
    {
        self.score
    }

    /// Whether the board has been created yet.
    pub fn is_started(&self) -> (r: bool)
        ensures
            r == self.board_present(),
    {
        self.started
    }

    /// Reads the cell at `index` of a present board.
    pub fn cell(&self, index: usize) -> (s: State)
        requires
            self.wf(),
            index < 9,
        ensures
            s == self.board()[index as int],
    {
        self.cells[index]
    }

    /// Writes mark `s` at `index` of a present board, bypassing turn rules:
    /// a way to lay out a position, for instance to exercise the outcome
    /// check on a chosen board.
    pub fn set_cell(&mut self, index: usize, s: State)
        requires
            old(self).wf(),
            old(self).board_present(),
            index < 9,
        ensures
            final(self).wf(),
            final(self).board_present(),
            final(self).board() == old(self).board().update(index as int, s),
            final(self).score_of() == old(self).score_of(),
    {
        self.cells.set(index, s);
    }

    /// The nine display glyphs of a present board, in board order; an absent
    /// board has none.
    pub fn render_cells(&self) -> (r: Option<Vec<char>>)
        requires
            self.wf(),
        ensures
            self.board_present() ==> (r matches Some(v) && v@.len() == 9 && (forall|i: int|
                0 <= i < 9 ==> v@[i] == spec_symbol(self.board()[i]))),
            !self.board_present() ==> r is None,
    {
        if !self.started {
            return None;
        }
        let mut v: Vec<char> = Vec::new();
        let mut i: usize = 0;
        while i < 9
            invariant
                i <= 9,
                self.wf(),
                v@.len() == i as int,
                forall|j: int| 0 <= j < i ==> v@[j] == spec_symbol(self.board()[j]),
            decreases 9 - i,
        {
            v.push(symbol(self.cells[i]));
            i = i + 1;
        }
        Some(v)
    }
}

/// The display glyph of a cell state.
pub open spec fn spec_symbol(s: State) -> char {
    match s {
        State::X => 'X',
        State::O => 'O',
        State::Empty => '.',
    }
}

/// The display glyph of a cell state: the player's and the CPU's mark each
/// have their own, an empty cell a dot.
pub fn symbol(s: State) -> (c: char)
    ensures
        c == spec_symbol(s),
{
    match s {
        State::X => 'X',
        State::O => 'O',
        State::Empty => '.',
    }
}

} // verus!
