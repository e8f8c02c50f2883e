use tetris::{
    get_random_piece, get_random_piece_except, piece_from_index, piece_other_than, Controls,
    DownOutcome, Effect, Entry, Filter, Model, Msg, PieceType, State,
};

const ALL: [PieceType; 7] = [
    PieceType::I,
    PieceType::J,
    PieceType::L,
    PieceType::T,
    PieceType::O,
    PieceType::S,
    PieceType::Z,
];

#[test]
fn fresh_state() {
    let s = State::new(PieceType::T);
    assert_eq!(s.stage.n_rows, 21);
    assert_eq!(s.stage.n_cols, 10);
    assert_eq!(s.player.piece_type, PieceType::T);
    assert_eq!(s.player.position.x, 4);
    assert_eq!(s.player.position.y, -1);
    assert_eq!(s.game_status.level, 1);
    assert_eq!(s.game_status.rows_cleared, 0);
    assert_eq!(s.game_status.score, 0);
    assert!(!s.game_status.game_over);
    assert!(!s.player.collided);
    let m = Model::new();
    assert!(!m.state.player.collided);
    assert_eq!((m.state.player.position.x, m.state.player.position.y), (4, -1));
}

#[test]
fn scoring_table_at_level_one() {
    let expected = [40, 100, 300, 1200];
    for n in 1..=4usize {
        let mut s = State::new(PieceType::I);
        s.update_game_state(n);
        assert_eq!(s.game_status.score, expected[n - 1]);
        assert_eq!(s.game_status.rows_cleared, n);
        assert_eq!(s.game_status.level, 1);
    }
}

#[test]
fn scoring_uses_the_level_before_the_update() {
    let mut s = State::new(PieceType::I);
    s.update_game_state(10);
    assert_eq!(s.game_status.score, 1200);
    assert_eq!(s.game_status.level, 2);
    s.update_game_state(1);
    assert_eq!(s.game_status.score, 1200 + 80);
    s.update_game_state(2);
    assert_eq!(s.game_status.score, 1280 + 200);
    s.update_game_state(3);
    assert_eq!(s.game_status.score, 1480 + 600);
    assert_eq!(s.game_status.rows_cleared, 16);
    s.update_game_state(0);
    assert_eq!(s.game_status.score, 2080);
    assert_eq!(s.game_status.rows_cleared, 16);
}

#[test]
fn level_formula() {
    let mut s = State::new(PieceType::I);
    assert_eq!(s.game_status.level, 1);
    s.update_game_state(9);
    assert_eq!((s.game_status.rows_cleared, s.game_status.level), (9, 1));
    s.update_game_state(1);
    assert_eq!((s.game_status.rows_cleared, s.game_status.level), (10, 2));
    s.update_game_state(9);
    assert_eq!((s.game_status.rows_cleared, s.game_status.level), (19, 2));
    s.update_game_state(1);
    assert_eq!((s.game_status.rows_cleared, s.game_status.level), (20, 3));
}

#[test]
fn counters_saturate() {
    let mut s = State::new(PieceType::I);
    s.game_status.rows_cleared = usize::MAX - 1;
    s.game_status.level = (usize::MAX - 1) / 10 + 1;
    s.game_status.score = usize::MAX - 5;
    s.update_game_state(4);
    assert_eq!(s.game_status.rows_cleared, usize::MAX);
    assert_eq!(s.game_status.level, usize::MAX / 10 + 1);
    assert_eq!(s.game_status.score, usize::MAX);
}

#[test]
fn end_to_end_o_piece_locks_at_the_bottom() {
    let mut s = State::new(PieceType::O);
    s.player.position.y = 0;
    for step in 1..=20 {
        let out = s.move_down(PieceType::I);
        if step < 20 {
            assert_eq!(out, DownOutcome::Moved);
            assert_eq!(s.player.position.y, step);
        } else {
            assert_eq!(out, DownOutcome::Locked);
        }
    }
    assert_eq!(s.player.piece_type, PieceType::I);
    assert_eq!((s.player.position.x, s.player.position.y), (4, 0));
    assert!(!s.player.collided);
    for r in 0..21 {
        for c in 0..10 {
            let want = if (r == 19 || r == 20) && (c == 4 || c == 5) { PieceType::O } else { PieceType::E };
            assert_eq!(s.stage.get(r, c), want);
        }
    }
    assert_eq!(s.game_status.rows_cleared, 0);
    assert_eq!(s.game_status.score, 0);
    assert_eq!(s.game_status.level, 1);
    assert!(!s.game_status.game_over);
}

#[test]
fn game_over_when_blocked_at_the_top() {
    let mut s = State::new(PieceType::O);
    s.player.position.y = 0;
    s.stage.set(2, 4, PieceType::J);
    s.stage.set(2, 5, PieceType::J);
    let out = s.move_down(PieceType::I);
    assert_eq!(out, DownOutcome::ToppedOut);
    assert!(s.game_status.game_over);
    assert_eq!(s.player.piece_type, PieceType::O);
    assert_eq!(s.player.position.y, 0);
    assert_eq!(s.stage.get(0, 4), PieceType::E);
    assert_eq!(s.stage.get(1, 4), PieceType::E);
}

#[test]
fn game_over_by_tick_stops_the_drop_and_blocks_moves() {
    let mut m = Model::create(PieceType::O);
    assert_eq!(m.apply(Msg::StartPause, PieceType::I), Effect::BeginAutoDrop(1));
    assert!(m.job);
    m.state.player.position.y = 0;
    m.state.stage.set(2, 5, PieceType::J);
    assert_eq!(m.apply(Msg::Tick, PieceType::I), Effect::EndAutoDrop);
    assert!(m.state.game_status.game_over);
    assert!(!m.job);
    assert_eq!(m.state.player.piece_type, PieceType::O);
    assert_eq!(m.apply(Msg::Move(Controls::Left), PieceType::I), Effect::Nothing);
    assert_eq!(m.state.player.position.x, 4);
    assert_eq!(m.apply(Msg::Move(Controls::Down), PieceType::I), Effect::Nothing);
    assert_eq!(m.state.player.position.y, 0);
    // a restart clears the board and starts the drop
    assert_eq!(m.apply(Msg::StartPause, PieceType::S), Effect::BeginAutoDrop(1));
    assert!(!m.state.game_status.game_over);
    assert_eq!(m.state.player.piece_type, PieceType::S);
    assert_eq!(m.state.stage.get(2, 5), PieceType::E);
    assert_eq!(m.state.player.position.y, -1);
}

#[test]
fn line_clear_on_lock() {
    let mut s = State::new(PieceType::O);
    for c in 0..10 {
        if c != 4 && c != 5 {
            s.stage.set(19, c, PieceType::Z);
            s.stage.set(20, c, PieceType::Z);
        }
    }
    s.stage.set(18, 0, PieceType::T);
    s.player.position.y = 19;
    let out = s.move_down(PieceType::L);
    assert_eq!(out, DownOutcome::Locked);
    assert_eq!(s.game_status.rows_cleared, 2);
    assert_eq!(s.game_status.score, 100);
    assert_eq!(s.stage.get(20, 0), PieceType::T);
    for r in 0..20 {
        for c in 0..10 {
            assert_eq!(s.stage.get(r, c), PieceType::E);
        }
    }
    assert_eq!(s.player.piece_type, PieceType::L);
}

#[test]
fn hard_drop_locks_at_the_bottom() {
    let mut s = State::new(PieceType::I);
    let out = s.hard_drop(PieceType::T);
    assert_eq!(out, DownOutcome::Locked);
    for r in 17..21 {
        assert_eq!(s.stage.get(r, 5), PieceType::I);
    }
    assert_eq!(s.stage.get(16, 5), PieceType::E);
    assert_eq!(s.player.piece_type, PieceType::T);
}

#[test]
fn moves_left_and_right_stop_at_walls() {
    let mut m = Model::create(PieceType::O);
    for _ in 0..10 {
        m.apply(Msg::Move(Controls::Left), PieceType::I);
    }
    assert_eq!(m.state.player.position.x, 0);
    for _ in 0..20 {
        m.apply(Msg::Move(Controls::Right), PieceType::I);
    }
    assert_eq!(m.state.player.position.x, 8);
}

#[test]
fn rotation_and_upward_kick() {
    let mut s = State::new(PieceType::T);
    s.player.position.y = 5;
    assert!(s.rotate_player_piece());
    assert_eq!(s.player.piece_shape.get(1, 2), PieceType::T);
    assert_eq!(s.player.position.y, 5);
    // an I lying at the bottom row: turning upright there pokes below, so it goes up one row
    let mut s = State::new(PieceType::I);
    s.player.piece_shape = s.player.piece_shape.rotated();
    s.player.position.y = 18;
    assert!(s.rotate_player_piece());
    assert_eq!(s.player.position.y, 17);
    // blocked both where it stands and one row up
    let mut s = State::new(PieceType::I);
    s.player.position.x = -1;
    let before = s.player.piece_shape.get(0, 1);
    assert!(!s.rotate_player_piece());
    assert_eq!(s.player.piece_shape.get(0, 1), before);
    assert_eq!(s.player.position.x, -1);
}

#[test]
fn spawn_never_repeats_the_locked_piece() {
    for prev in ALL {
        for k in 0..6 {
            let next = piece_other_than(prev, k);
            assert_ne!(next, prev);
            assert_ne!(next, PieceType::E);
            let mut s = State::new(prev);
            let out = s.hard_drop(next);
            assert_eq!(out, DownOutcome::Locked);
            assert_ne!(s.player.piece_type, prev);
        }
    }
    for _ in 0..200 {
        let mut m = Model::create(PieceType::Z);
        m.apply(Msg::StartPause, PieceType::I);
        m.update(Msg::Move(Controls::Bottom));
        assert_ne!(m.state.player.piece_type, PieceType::Z);
        assert_ne!(m.state.player.piece_type, PieceType::E);
    }
}

#[test]
fn other_than_covers_the_six_others() {
    for prev in ALL {
        let mut seen: Vec<PieceType> = (0..6).map(|k| piece_other_than(prev, k)).collect();
        seen.dedup();
        assert_eq!(seen.len(), 6);
        assert!(!seen.contains(&prev));
    }
    assert_eq!(piece_other_than(PieceType::I, 0), PieceType::J);
    assert_eq!(piece_other_than(PieceType::Z, 5), PieceType::S);
    assert_eq!(piece_other_than(PieceType::O, 4), PieceType::S);
    assert_eq!(piece_from_index(0), PieceType::I);
    assert_eq!(piece_from_index(6), PieceType::Z);
}

#[test]
fn random_pieces_are_real_and_differ() {
    for _ in 0..500 {
        assert_ne!(get_random_piece(), PieceType::E);
        assert_ne!(get_random_piece_except(PieceType::Z), PieceType::Z);
        assert_ne!(get_random_piece_except(PieceType::I), PieceType::I);
    }
}

#[test]
fn start_pause_toggles_the_drop() {
    let mut m = Model::create(PieceType::J);
    assert!(!m.job);
    assert_eq!(m.apply(Msg::StartPause, PieceType::I), Effect::BeginAutoDrop(1));
    assert!(m.job);
    assert_eq!(m.apply(Msg::StartPause, PieceType::I), Effect::EndAutoDrop);
    assert!(!m.job);
    assert_eq!(m.state.player.piece_type, PieceType::J);
    assert_eq!(m.apply(Msg::StartInterval, PieceType::I), Effect::BeginAutoDrop(1));
    assert!(m.job);
    assert_eq!(m.apply(Msg::Move(Controls::Pause), PieceType::I), Effect::EndAutoDrop);
    assert!(!m.job);
    assert_eq!(m.apply(Msg::Move(Controls::Pause), PieceType::I), Effect::Nothing);
    assert_eq!(m.apply(Msg::Cancel, PieceType::I), Effect::EndAutoDrop);
}

#[test]
fn tick_moves_down() {
    let mut m = Model::create(PieceType::L);
    assert_eq!(m.apply(Msg::Tick, PieceType::I), Effect::Nothing);
    assert_eq!(m.state.player.position.y, 0);
    m.update(Msg::Tick);
    assert_eq!(m.state.player.position.y, 1);
}

#[test]
fn render_cell_overlays_the_piece() {
    let mut m = Model::create(PieceType::O);
    m.state.stage.set(20, 0, PieceType::S);
    assert_eq!(m.cell_at(0, 4), PieceType::O);
    assert_eq!(m.cell_at(0, 5), PieceType::O);
    assert_eq!(m.cell_at(1, 4), PieceType::E);
    assert_eq!(m.cell_at(20, 0), PieceType::S);
    let m2 = Model::new();
    assert_ne!(m2.state.player.piece_type, PieceType::E);
}

#[test]
fn filter_fit() {
    let open = Entry { description: String::from("a"), completed: false, editing: false };
    let done = Entry { description: String::from("b"), completed: true, editing: false };
    assert!(Filter::All.fit(&open) && Filter::All.fit(&done));
    assert!(Filter::Active.fit(&open) && !Filter::Active.fit(&done));
    assert!(!Filter::Completed.fit(&open) && Filter::Completed.fit(&done));
}
