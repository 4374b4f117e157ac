use vstd::prelude::*;
use crate::game::{bump, empty_board, full, outcome, wins, CheckResult, Score, State};

verus! {

/// The first successful player move on a fresh board: the chosen cell holds
/// the player's mark and every other cell is still empty.
pub proof fn lemma_first_move(b: Seq<State>, i: int)
    requires
        0 <= i < 9,
        b == empty_board().update(i, State::X),
    ensures
        b[i] == State::X,
        forall|j: int| 0 <= j < 9 && j != i ==> b[j] == State::Empty,
{
}

/// A successful move leaves its target occupied, so repeating the same index
/// with no reset in between is refused and changes nothing (see
/// `Game::pick_player`, whose contract refuses a non-empty target cell).
pub proof fn lemma_replay_refused(b: Seq<State>, i: int)
    requires
        0 <= i < 9,
        b.len() == 9,
    ensures
        b.update(i, State::X)[i] != State::Empty,
{
}

/// The mark opposing `s`.
pub open spec fn other_mark(s: State) -> State {
    if s == State::X {
        State::O
    } else {
        State::X
    }
}

/// The index triple of winning line `l`: lines 0 to 2 the rows, 3 to 5 the
/// columns, 6 and 7 the diagonals.
pub open spec fn line_cells(l: int) -> (int, int, int) {
    if l == 0 {
        (0, 1, 2)
    } else if l == 1 {
        (3, 4, 5)
    } else if l == 2 {
        (6, 7, 8)
    } else if l == 3 {
        (0, 3, 6)
    } else if l == 4 {
        (1, 4, 7)
    } else if l == 5 {
        (2, 5, 8)
    } else if l == 6 {
        (0, 4, 8)
    } else {
        (2, 4, 6)
    }
}

/// A board holding exactly one full line of mark `s` and nothing else.
pub open spec fn line_board(l: int, s: State) -> Seq<State> {
    let (i, j, k) = line_cells(l);
    empty_board().update(i, s).update(j, s).update(k, s)
}

/// Win detection: for each of the eight winning lines, the board whose only
/// marks are that full line of `s` yields Win for `s` and Continue for the
/// other mark.
pub proof fn lemma_line_board_outcome(l: int, s: State)
    requires
        0 <= l < 8,
        s != State::Empty,
    ensures
        outcome(line_board(l, s), s) == CheckResult::Win,
        outcome(line_board(l, s), other_mark(s)) == CheckResult::Continue,
{
}

/// Tie detection: a full board on which mark `s` holds no line yields Tie
/// for `s`.
pub proof fn lemma_tie(b: Seq<State>, s: State)
    requires
        b.len() == 9,
        full(b),
        !wins(b, s),
    ensures
        outcome(b, s) == CheckResult::Tie,
{
}

/// With exactly one empty cell, at `k`, any move onto an empty cell lands on
/// `k`: the CPU's move fills exactly that cell (see `Game::pick_cpu`, whose
/// contract marks some empty cell).
pub proof fn lemma_single_empty(b: Seq<State>, k: int, i: int)
    requires
        b.len() == 9,
        0 <= k < 9,
        b[k] == State::Empty,
        forall|j: int| 0 <= j < 9 && j != k ==> b[j] != State::Empty,
        0 <= i < 9,
        b[i] == State::Empty,
    ensures
        i == k,
        b.update(i, State::O)[k] == State::O,
        forall|j: int| 0 <= j < 9 && j != k ==> b.update(i, State::O)[j] == b[j],
{
}

/// Each recorded outcome with a recognised code moves exactly one counter,
/// by one, and no recording ever lowers a counter.
pub proof fn lemma_record_exactly_one(sc: Score, turn: u8)
    requires
        turn == 0 ==> sc.tie < u16::MAX,
        turn == 1 ==> sc.player < u16::MAX,
        turn == 2 ==> sc.cpu < u16::MAX,
    ensures
        bump(sc, turn).player >= sc.player,
        bump(sc, turn).cpu >= sc.cpu,
        bump(sc, turn).tie >= sc.tie,
        bump(sc, turn).player <= sc.player + 1,
        bump(sc, turn).cpu <= sc.cpu + 1,
        bump(sc, turn).tie <= sc.tie + 1,
        turn <= 2 ==> bump(sc, turn).player + bump(sc, turn).cpu + bump(sc, turn).tie == sc.player
            + sc.cpu + sc.tie + 1,
        turn > 2 ==> bump(sc, turn) == sc,
{
}

/// The score after `n` consecutive recorded player wins.
pub open spec fn bump_player_n(sc: Score, n: nat) -> Score
    decreases n,
{
    if n == 0 {
        sc
    } else {
        bump(bump_player_n(sc, (n - 1) as nat), 1)
    }
}

/// Recording `n` consecutive player wins adds `n` to the player counter and
/// leaves the cpu and tie counters at their prior values.
pub proof fn lemma_player_wins_accumulate(sc: Score, n: nat)
    requires
        sc.player + n <= u16::MAX,
    ensures
        bump_player_n(sc, n).player == sc.player + n,
        bump_player_n(sc, n).cpu == sc.cpu,
        bump_player_n(sc, n).tie == sc.tie,
    decreases n,
{
    if n > 0 {
        lemma_player_wins_accumulate(sc, (n - 1) as nat);
    }
}

} // verus!
