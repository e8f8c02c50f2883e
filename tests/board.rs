use tetris::{piece_shape, PieceType, State, Vec2D};

const ALL: [PieceType; 7] = [
    PieceType::I,
    PieceType::J,
    PieceType::L,
    PieceType::T,
    PieceType::O,
    PieceType::S,
    PieceType::Z,
];

fn cells(g: &Vec2D) -> Vec<Vec<PieceType>> {
    let mut out = Vec::new();
    for r in 0..g.n_rows {
        let mut row = Vec::new();
        for c in 0..g.n_cols {
            row.push(g.get(r, c));
        }
        out.push(row);
    }
    out
}

fn fill_row(g: &mut Vec2D, row: usize, piece: PieceType) {
    for c in 0..g.n_cols {
        g.set(row, c, piece);
    }
}

#[test]
fn new_grid_is_empty_with_given_size() {
    let g = Vec2D::new(21, 10);
    assert_eq!(g.n_rows, 21);
    assert_eq!(g.n_cols, 10);
    assert!(cells(&g).iter().all(|r| r.len() == 10 && r.iter().all(|c| *c == PieceType::E)));
    assert_eq!(cells(&g).len(), 21);
}

#[test]
fn set_then_get() {
    let mut g = Vec2D::new(3, 4);
    g.set(1, 2, PieceType::T);
    assert_eq!(g.get(1, 2), PieceType::T);
    assert_eq!(g.get(2, 1), PieceType::E);
    g.set(1, 2, PieceType::E);
    assert_eq!(g.get(1, 2), PieceType::E);
}

#[test]
fn catalog_shapes() {
    let o = piece_shape(PieceType::O);
    assert_eq!(o.n_rows, 2);
    assert_eq!(cells(&o), vec![vec![PieceType::O; 2]; 2]);
    let i = piece_shape(PieceType::I);
    assert_eq!(i.n_rows, 4);
    assert_eq!(i.get(3, 1), PieceType::I);
    assert_eq!(i.get(3, 0), PieceType::E);
    let e = piece_shape(PieceType::E);
    assert_eq!(cells(&e), vec![vec![PieceType::E]]);
    for t in ALL {
        let s = piece_shape(t);
        let blocks = cells(&s).iter().flatten().filter(|c| **c == t).count();
        assert_eq!(blocks, 4);
        assert!(cells(&s).iter().flatten().all(|c| *c == t || *c == PieceType::E));
    }
}

#[test]
fn rotation_is_clockwise() {
    let t = piece_shape(PieceType::T);
    let r = t.rotated();
    let e = PieceType::E;
    let x = PieceType::T;
    assert_eq!(cells(&r), vec![vec![e, x, e], vec![e, x, x], vec![e, x, e]]);
}

#[test]
fn rotating_four_times_gives_the_same_shape() {
    for t in ALL {
        let s = piece_shape(t);
        let back = s.rotated().rotated().rotated().rotated();
        assert_eq!(cells(&back), cells(&s));
        assert_ne!(cells(&s.rotated()), vec![vec![]]);
    }
}

#[test]
fn full_rows_and_clearing_two_rows() {
    let mut g = Vec2D::new(8, 3);
    for r in 0..8 {
        g.set(r, 0, ALL[r % 7]);
    }
    fill_row(&mut g, 2, PieceType::I);
    fill_row(&mut g, 5, PieceType::J);
    let before = cells(&g);
    let rows = g.full_rows();
    assert_eq!(rows, vec![2, 5]);
    let n = g.remove_rows(rows);
    assert_eq!(n, 2);
    let after = cells(&g);
    assert_eq!(after[0], vec![PieceType::E; 3]);
    assert_eq!(after[1], vec![PieceType::E; 3]);
    let kept: Vec<Vec<PieceType>> =
        before.iter().enumerate().filter(|(i, _)| *i != 2 && *i != 5).map(|(_, r)| r.clone()).collect();
    assert_eq!(after[2..].to_vec(), kept);
}

#[test]
fn no_full_rows_leaves_grid() {
    let mut g = Vec2D::new(4, 2);
    g.set(3, 0, PieceType::S);
    let before = cells(&g);
    let rows = g.full_rows();
    assert!(rows.is_empty());
    assert_eq!(g.remove_rows(rows), 0);
    assert_eq!(cells(&g), before);
}

#[test]
fn bounds_left_right_bottom() {
    let s = State::new(PieceType::O);
    let o = piece_shape(PieceType::O);
    assert!(s.is_player_position_valid(0, 0, &o));
    assert!(s.is_player_position_valid(8, 19, &o));
    assert!(!s.is_player_position_valid(-1, 0, &o));
    assert!(!s.is_player_position_valid(9, 0, &o));
    assert!(!s.is_player_position_valid(0, 20, &o));
    // above the board is allowed
    assert!(s.is_player_position_valid(4, -5, &o));
    assert!(s.is_player_position_valid(4, isize::MIN, &o));
    // empty columns of a shape may hang over an edge
    let i = piece_shape(PieceType::I);
    assert!(s.is_player_position_valid(-1, 0, &i));
    assert!(!s.is_player_position_valid(-2, 0, &i));
    assert!(s.is_player_position_valid(8, 17, &i));
    assert!(!s.is_player_position_valid(9, 17, &i));
    assert!(!s.is_player_position_valid(8, 18, &i));
}

#[test]
fn obstruction_only_by_blocks_on_the_board() {
    let mut s = State::new(PieceType::O);
    s.stage.set(10, 5, PieceType::Z);
    let o = piece_shape(PieceType::O);
    assert!(!s.is_position_empty(4, 9, &o));
    assert!(!s.is_position_empty(5, 10, &o));
    assert!(s.is_position_empty(6, 10, &o));
    assert!(s.is_position_empty(3, 9, &o));
    // positions off the board block nothing
    assert!(s.is_position_empty(-5, -5, &o));
    assert!(s.is_position_empty(100, 100, &o));
    assert!(!s.is_move_allowed(4, 9, &o));
    assert!(s.is_move_allowed(0, 0, &o));
}
