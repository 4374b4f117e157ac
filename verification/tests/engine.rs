use tic_tac_toe::game::{CheckResult, Game, PickError, Score, State};

fn board_snapshot(g: &Game) -> Vec<State> {
    let mut v = Vec::new();
    for i in 0..9 {
        v.push(g.cell(i));
    }
    v
}

fn fresh_started() -> Game {
    let mut g = Game::new();
    g.reset();
    g
}

#[test]
fn new_engine_has_no_board_and_zero_score() {
    let g = Game::new();
    assert!(!g.is_started());
    assert_eq!(g.current_score(), Score { player: 0, cpu: 0, tie: 0 });
}

#[test]
fn first_move_marks_only_the_chosen_cell() {
    for i in 0..9 {
        let mut g = fresh_started();
        assert_eq!(g.pick_player(i), Ok(()));
        for j in 0..9 {
            if j == i {
                assert_eq!(g.cell(j), State::X);
            } else {
                assert_eq!(g.cell(j), State::Empty);
            }
        }
    }
}

#[test]
fn out_of_range_index_fails_whatever_the_board_state() {
    // before any start
    let mut g = Game::new();
    assert_eq!(g.pick_player(9), Err(PickError::OutOfBounds));
    assert_eq!(g.pick_player(100), Err(PickError::OutOfBounds));
    assert_eq!(g.pick_player(usize::MAX), Err(PickError::OutOfBounds));
    assert!(!g.is_started());
    // on a started board, with some cells occupied
    let mut g = fresh_started();
    assert_eq!(g.pick_player(0), Ok(()));
    let before = board_snapshot(&g);
    assert_eq!(g.pick_player(9), Err(PickError::OutOfBounds));
    assert_eq!(g.pick_player(100), Err(PickError::OutOfBounds));
    assert_eq!(board_snapshot(&g), before);
}

#[test]
fn move_before_start_reports_uninitialized_board() {
    let mut g = Game::new();
    assert_eq!(g.pick_player(0), Err(PickError::MovesMapNotInitialized));
    assert_eq!(g.pick_player(8), Err(PickError::MovesMapNotInitialized));
    assert!(!g.is_started());
}

#[test]
fn repeating_an_index_is_refused_and_changes_nothing() {
    let mut g = fresh_started();
    assert_eq!(g.pick_player(4), Ok(()));
    let before = board_snapshot(&g);
    let score_before = g.current_score();
    assert_eq!(g.pick_player(4), Err(PickError::AreaOccupied));
    assert_eq!(board_snapshot(&g), before);
    assert_eq!(g.current_score(), score_before);
}

fn lines() -> [[usize; 3]; 8] {
    [
        [0, 1, 2],
        [3, 4, 5],
        [6, 7, 8],
        [0, 3, 6],
        [1, 4, 7],
        [2, 5, 8],
        [0, 4, 8],
        [2, 4, 6],
    ]
}

#[test]
fn each_line_of_player_marks_wins_for_the_player_only() {
    for line in lines() {
        let mut g = fresh_started();
        for i in line {
            g.set_cell(i, State::X);
        }
        assert_eq!(g.check(State::X), CheckResult::Win);
        assert_eq!(g.check(State::O), CheckResult::Continue);
    }
}

#[test]
fn each_line_of_cpu_marks_wins_for_the_cpu_only() {
    for line in lines() {
        let mut g = fresh_started();
        for i in line {
            g.set_cell(i, State::O);
        }
        assert_eq!(g.check(State::O), CheckResult::Win);
        assert_eq!(g.check(State::X), CheckResult::Continue);
    }
}

#[test]
fn full_board_without_a_line_is_a_tie_for_either_mark() {
    // X O X
    // X O O
    // O X X
    let layout = [
        State::X,
        State::O,
        State::X,
        State::X,
        State::O,
        State::O,
        State::O,
        State::X,
        State::X,
    ];
    let mut g = fresh_started();
    for (i, s) in layout.into_iter().enumerate() {
        g.set_cell(i, s);
    }
    assert_eq!(g.check(State::X), CheckResult::Tie);
    assert_eq!(g.check(State::O), CheckResult::Tie);
}

#[test]
fn check_before_start_reports_continue() {
    let mut g = Game::new();
    assert_eq!(g.check(State::X), CheckResult::Continue);
    assert_eq!(g.check(State::O), CheckResult::Continue);
}

#[test]
fn check_on_empty_board_reports_continue() {
    let mut g = fresh_started();
    assert_eq!(g.check(State::X), CheckResult::Continue);
    assert_eq!(g.check(State::O), CheckResult::Continue);
}

#[test]
fn cpu_move_on_a_single_free_cell_takes_exactly_that_cell() {
    for free in 0..9 {
        let mut g = fresh_started();
        for i in 0..9 {
            if i != free {
                g.set_cell(i, State::X);
            }
        }
        g.pick_cpu();
        assert_eq!(g.cell(free), State::O);
        for i in 0..9 {
            if i != free {
                assert_eq!(g.cell(i), State::X);
            }
        }
    }
}

#[test]
fn cpu_move_on_a_full_board_changes_nothing() {
    let mut g = fresh_started();
    for i in 0..9 {
        assert_eq!(g.pick_player(i), Ok(()));
    }
    assert!(g.is_full());
    let before = board_snapshot(&g);
    let score_before = g.current_score();
    g.pick_cpu();
    assert_eq!(board_snapshot(&g), before);
    assert_eq!(g.current_score(), score_before);
}

#[test]
fn cpu_move_marks_exactly_one_previously_empty_cell() {
    let mut g = fresh_started();
    assert_eq!(g.pick_player(4), Ok(()));
    let before = board_snapshot(&g);
    g.pick_cpu();
    let after = board_snapshot(&g);
    let mut changed = Vec::new();
    for i in 0..9 {
        if before[i] != after[i] {
            changed.push(i);
        }
    }
    assert_eq!(changed.len(), 1);
    assert_eq!(before[changed[0]], State::Empty);
    assert_eq!(after[changed[0]], State::O);
}

#[test]
fn is_full_tracks_the_board() {
    let g = Game::new();
    assert!(!g.is_full());
    let mut g = fresh_started();
    assert!(!g.is_full());
    for i in 0..8 {
        assert_eq!(g.pick_player(i), Ok(()));
        assert!(!g.is_full());
    }
    assert_eq!(g.pick_player(8), Ok(()));
    assert!(g.is_full());
}

#[test]
fn reset_clears_the_board_and_keeps_the_score() {
    let mut g = fresh_started();
    assert_eq!(g.pick_player(0), Ok(()));
    g.set_cell(5, State::O);
    assert_eq!(g.pick_player(4), Ok(()));
    g.increase_score(1);
    g.increase_score(0);
    let score_before = g.current_score();
    g.reset();
    assert!(g.is_started());
    for i in 0..9 {
        assert_eq!(g.cell(i), State::Empty);
    }
    assert_eq!(g.current_score(), score_before);
}

#[test]
fn each_outcome_code_moves_its_own_counter() {
    let mut g = Game::new();
    g.increase_score(0);
    assert_eq!(g.current_score(), Score { player: 0, cpu: 0, tie: 1 });
    g.increase_score(1);
    assert_eq!(g.current_score(), Score { player: 1, cpu: 0, tie: 1 });
    g.increase_score(2);
    assert_eq!(g.current_score(), Score { player: 1, cpu: 1, tie: 1 });
    // an unrecognised code changes nothing
    g.increase_score(7);
    assert_eq!(g.current_score(), Score { player: 1, cpu: 1, tie: 1 });
}

#[test]
fn repeated_player_wins_accumulate_and_touch_nothing_else() {
    let mut g = Game::new();
    g.increase_score(2);
    g.increase_score(0);
    for n in 1..=5u16 {
        g.increase_score(1);
        assert_eq!(g.current_score(), Score { player: n, cpu: 1, tie: 1 });
    }
}

#[test]
fn render_shows_a_glyph_per_cell_and_none_before_start() {
    let g = Game::new();
    assert!(g.render_cells().is_none());
    let mut g = fresh_started();
    assert_eq!(g.render_cells().unwrap(), vec!['.'; 9]);
    assert_eq!(g.pick_player(4), Ok(()));
    g.set_cell(8, State::O);
    let cells = g.render_cells().unwrap();
    assert_eq!(cells, vec!['.', '.', '.', '.', 'X', '.', '.', '.', 'O']);
}

#[test]
fn played_round_player_wins_by_a_column() {
    // human takes the left column while the CPU answers elsewhere
    let mut g = fresh_started();
    assert_eq!(g.pick_player(0), Ok(()));
    assert_eq!(g.check(State::X), CheckResult::Continue);
    g.set_cell(1, State::O);
    assert_eq!(g.pick_player(3), Ok(()));
    assert_eq!(g.check(State::X), CheckResult::Continue);
    g.set_cell(2, State::O);
    assert_eq!(g.pick_player(6), Ok(()));
    assert_eq!(g.check(State::X), CheckResult::Win);
    g.increase_score(1);
    g.reset();
    assert_eq!(g.current_score(), Score { player: 1, cpu: 0, tie: 0 });
}
