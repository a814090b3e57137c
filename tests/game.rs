use snake::fruit::get_random_empty_cell;
use snake::game::{GameState, TickOutcome, COLS, ROWS};
use snake::grid::{copy_cells, empty_cells, CellKind};
use snake::point::{step, Direction, Point};

fn pt(x: usize, y: usize) -> Point {
    Point { x, y }
}

fn body_cells(g: &GameState) -> Vec<Point> {
    let mut v = Vec::new();
    for y in 0..g.rows() {
        for x in 0..g.cols() {
            if g.cell_at(pt(x, y)) == CellKind::SnakeBody {
                v.push(pt(x, y));
            }
        }
    }
    v
}

fn check_invariants(g: &GameState) {
    let body = body_cells(g);
    assert_eq!(body.len(), g.snake().len());
    for p in g.snake() {
        assert!(body.contains(p));
    }
    if let Some(f) = g.fruit() {
        assert!(!g.snake().contains(&f));
        assert_eq!(g.cell_at(f), CellKind::Fruit);
    }
}

/// Every cell of the board in serpentine order: row 0 left to right, row 1
/// right to left, and so on.
fn serpentine(rows: usize, cols: usize) -> Vec<Point> {
    let mut v = Vec::new();
    for y in 0..rows {
        for i in 0..cols {
            let x = if y % 2 == 0 { i } else { cols - 1 - i };
            v.push(pt(x, y));
        }
    }
    v
}

#[test]
fn wraparound_at_every_edge() {
    assert_eq!(step(pt(0, 5), Direction::Left, ROWS, COLS), pt(16, 5));
    assert_eq!(step(pt(16, 5), Direction::Right, ROWS, COLS), pt(0, 5));
    assert_eq!(step(pt(3, 0), Direction::Up, ROWS, COLS), pt(3, 14));
    assert_eq!(step(pt(3, 14), Direction::Down, ROWS, COLS), pt(3, 0));
    assert_eq!(step(pt(3, 4), Direction::Up, ROWS, COLS), pt(3, 3));
    assert_eq!(step(pt(3, 4), Direction::Right, ROWS, COLS), pt(4, 4));
}

#[test]
fn head_wraps_from_left_edge() {
    let mut g = GameState::with_layout(ROWS, COLS, vec![pt(0, 5)], pt(3, 3)).unwrap();
    assert_eq!(g.tick(Direction::Left), TickOutcome::Continue);
    assert_eq!(g.snake().clone(), vec![pt(16, 5)]);
}

#[test]
fn new_game_starts_in_the_middle() {
    let g = GameState::new(ROWS, COLS).unwrap();
    assert_eq!(g.snake().clone(), vec![pt(8, 7)]);
    assert_eq!(g.head(), pt(8, 7));
    let f = g.fruit().unwrap();
    assert_ne!(f, pt(8, 7));
    assert!(f.x < COLS && f.y < ROWS);
    check_invariants(&g);
}

#[test]
fn new_game_rejects_unusable_sizes() {
    assert!(GameState::new(0, 5).is_none());
    assert!(GameState::new(5, 0).is_none());
    assert!(GameState::new(1, 1).is_none());
    assert!(GameState::new(usize::MAX, 2).is_none());
    assert!(GameState::new(1, 2).is_some());
}

#[test]
fn first_tick_moves_up_and_vacates() {
    let mut g = GameState::with_layout(ROWS, COLS, vec![pt(8, 7)], pt(0, 0)).unwrap();
    assert_eq!(g.tick(Direction::Up), TickOutcome::Continue);
    assert_eq!(g.snake().clone(), vec![pt(8, 6)]);
    assert_eq!(g.cell_at(pt(8, 7)), CellKind::Empty);
    assert_eq!(g.cell_at(pt(8, 6)), CellKind::SnakeBody);
    assert_eq!(g.fruit(), Some(pt(0, 0)));
    check_invariants(&g);
}

#[test]
fn moving_into_own_body_loses() {
    let mut g = GameState::with_layout(ROWS, COLS, vec![pt(5, 5), pt(5, 6)], pt(0, 0)).unwrap();
    assert_eq!(g.tick(Direction::Down), TickOutcome::Lost);
    assert_eq!(g.snake().clone(), vec![pt(5, 5), pt(5, 6)]);
    check_invariants(&g);
}

#[test]
fn moving_into_the_tail_cell_loses() {
    let snake = vec![pt(5, 5), pt(6, 5), pt(6, 6), pt(5, 6)];
    let mut g = GameState::with_layout(ROWS, COLS, snake, pt(0, 0)).unwrap();
    assert_eq!(g.tick(Direction::Down), TickOutcome::Lost);
}

#[test]
fn eating_grows_by_one_and_places_new_fruit() {
    let mut g = GameState::with_layout(ROWS, COLS, vec![pt(5, 5), pt(5, 6)], pt(5, 4)).unwrap();
    assert_eq!(g.tick(Direction::Up), TickOutcome::Continue);
    assert_eq!(g.snake().clone(), vec![pt(5, 4), pt(5, 5), pt(5, 6)]);
    let f = g.fruit().unwrap();
    assert!(![pt(5, 4), pt(5, 5), pt(5, 6)].contains(&f));
    assert_eq!(g.cell_at(f), CellKind::Fruit);
    check_invariants(&g);
}

#[test]
fn filling_the_board_wins() {
    let path = serpentine(ROWS, COLS);
    let snake: Vec<Point> = path[1..].to_vec();
    assert_eq!(snake.len(), ROWS * COLS - 1);
    let mut g = GameState::with_layout(ROWS, COLS, snake, path[0]).unwrap();
    assert_eq!(g.tick(Direction::Left), TickOutcome::Won);
    assert_eq!(g.snake().len(), ROWS * COLS);
    assert_eq!(g.snake()[0], pt(0, 0));
    assert_eq!(g.fruit(), None);
    check_invariants(&g);
}

#[test]
fn last_empty_cell_takes_the_fruit() {
    let path = serpentine(ROWS, COLS);
    let snake: Vec<Point> = path[2..].to_vec();
    let mut g = GameState::with_layout(ROWS, COLS, snake, path[1]).unwrap();
    assert_eq!(g.tick(Direction::Left), TickOutcome::Continue);
    assert_eq!(g.snake().len(), ROWS * COLS - 1);
    assert_eq!(g.fruit(), Some(pt(0, 0)));
    check_invariants(&g);
}

#[test]
fn layout_is_validated() {
    assert!(GameState::with_layout(ROWS, COLS, vec![], pt(0, 0)).is_none());
    assert!(GameState::with_layout(ROWS, COLS, vec![pt(17, 0)], pt(0, 0)).is_none());
    assert!(GameState::with_layout(ROWS, COLS, vec![pt(1, 1), pt(1, 1)], pt(0, 0)).is_none());
    assert!(GameState::with_layout(ROWS, COLS, vec![pt(1, 1)], pt(1, 1)).is_none());
    assert!(GameState::with_layout(ROWS, COLS, vec![pt(1, 1)], pt(0, 15)).is_none());
    assert!(GameState::with_layout(1, 1, vec![pt(0, 0)], pt(0, 0)).is_none());
    assert!(GameState::with_layout(ROWS, COLS, vec![pt(1, 1), pt(1, 2)], pt(0, 0)).is_some());
}

#[test]
fn invariants_hold_over_a_long_game() {
    let mut g = GameState::new(6, 7).unwrap();
    let dirs = [Direction::Up, Direction::Right, Direction::Right, Direction::Down, Direction::Left];
    let mut ticks = 0;
    loop {
        let before = g.snake().len();
        let d = dirs[ticks % dirs.len()];
        let r = g.tick(d);
        check_invariants(&g);
        assert!(g.snake().len() == before || g.snake().len() == before + 1);
        ticks += 1;
        if r != TickOutcome::Continue || ticks > 500 {
            break;
        }
    }
}

#[test]
fn random_empty_cell_finds_the_only_one() {
    let mut cells = vec![CellKind::SnakeBody; 12];
    cells[7] = CellKind::Empty;
    let p = get_random_empty_cell(&cells, 3, 4);
    assert_eq!(p, pt(3, 1));
}

#[test]
fn random_empty_cell_is_empty() {
    let mut cells = empty_cells(ROWS * COLS);
    for i in 0..100 {
        cells[i] = CellKind::SnakeBody;
    }
    for _ in 0..50 {
        let p = get_random_empty_cell(&cells, ROWS, COLS);
        assert_eq!(cells[p.y * COLS + p.x], CellKind::Empty);
    }
}

#[test]
fn copy_cells_copies_all() {
    let a = vec![CellKind::Fruit, CellKind::Empty, CellKind::SnakeBody];
    let mut b = vec![CellKind::Empty; 3];
    copy_cells(&a, &mut b);
    assert_eq!(a, b);
}
