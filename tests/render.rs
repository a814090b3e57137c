use snake::grid::CellKind;
use snake::input::{decode_key, on_key, Key, KeyAction, KeyPress, Signal, DOWN_CODE, EXIT_CODE, LEFT_CODE, RIGHT_CODE, UP_CODE};
use snake::point::Direction;
use snake::render::{border_frame, frame_diff, horizontal_border, DisplayConfig, DrawOp, Renderer};
use snake::session::{Ending, LoopStep, Session};

fn key(k: Key) -> KeyPress {
    KeyPress { key: k, control: false }
}

#[test]
fn diff_writes_only_changed_cells() {
    let cfg = DisplayConfig::standard();
    let prev = vec![CellKind::Empty, CellKind::SnakeBody, CellKind::Empty, CellKind::Fruit, CellKind::Empty, CellKind::Empty];
    let cur = vec![CellKind::Empty, CellKind::Empty, CellKind::SnakeBody, CellKind::Fruit, CellKind::Empty, CellKind::Fruit];
    let ops = frame_diff(&cfg, 3, &prev, &cur);
    assert_eq!(
        ops,
        vec![
            DrawOp { column: 2, row: 1, glyph: '-' },
            DrawOp { column: 3, row: 1, glyph: 'S' },
            DrawOp { column: 3, row: 2, glyph: 'F' },
        ]
    );
}

#[test]
fn diff_of_equal_frames_is_empty() {
    let cfg = DisplayConfig::standard();
    let f = vec![CellKind::SnakeBody; 20];
    assert!(frame_diff(&cfg, 5, &f, &f).is_empty());
}

#[test]
fn diff_count_matches_changed_count() {
    let cfg = DisplayConfig { empty: '.', snake: 'o', fruit: '*', border: '|' };
    let prev = vec![CellKind::Empty; 12];
    let mut cur = prev.clone();
    cur[0] = CellKind::SnakeBody;
    cur[5] = CellKind::Fruit;
    cur[11] = CellKind::SnakeBody;
    cur[7] = CellKind::SnakeBody;
    let ops = frame_diff(&cfg, 4, &prev, &cur);
    assert_eq!(ops.len(), 4);
    assert_eq!(ops[3], DrawOp { column: 4, row: 3, glyph: 'o' });
    assert_eq!(ops[1], DrawOp { column: 2, row: 2, glyph: '*' });
}

#[test]
fn renderer_remembers_the_last_frame() {
    let mut r = Renderer::new(DisplayConfig::standard(), 2, 2);
    let f1 = vec![CellKind::SnakeBody, CellKind::Empty, CellKind::Empty, CellKind::Fruit];
    assert_eq!(r.render(&f1).len(), 2);
    assert!(r.render(&f1).is_empty());
    let f2 = vec![CellKind::Empty, CellKind::SnakeBody, CellKind::Empty, CellKind::Fruit];
    assert_eq!(r.render(&f2).len(), 2);
}

#[test]
fn glyphs_follow_the_config() {
    let cfg = DisplayConfig::standard();
    assert_eq!(cfg.glyph(CellKind::Empty), '-');
    assert_eq!(cfg.glyph(CellKind::SnakeBody), 'S');
    assert_eq!(cfg.glyph(CellKind::Fruit), 'F');
}

#[test]
fn border_frame_surrounds_the_board() {
    let cfg = DisplayConfig::standard();
    assert_eq!(horizontal_border(&cfg, 3), vec!['#'; 5]);
    let f = border_frame(&cfg, 2, 3);
    let lines: Vec<String> = f.iter().map(|l| l.iter().collect()).collect();
    assert_eq!(lines, vec!["#####", "#---#", "#---#", "#####"]);
}

#[test]
fn keys_decode_to_directions() {
    assert_eq!(decode_key(key(Key::Char('w'))), KeyAction::Turn(Direction::Up));
    assert_eq!(decode_key(key(Key::Char('W'))), KeyAction::Turn(Direction::Up));
    assert_eq!(decode_key(key(Key::Up)), KeyAction::Turn(Direction::Up));
    assert_eq!(decode_key(key(Key::Char('A'))), KeyAction::Turn(Direction::Left));
    assert_eq!(decode_key(key(Key::Left)), KeyAction::Turn(Direction::Left));
    assert_eq!(decode_key(key(Key::Char('s'))), KeyAction::Turn(Direction::Down));
    assert_eq!(decode_key(key(Key::Down)), KeyAction::Turn(Direction::Down));
    assert_eq!(decode_key(key(Key::Char('d'))), KeyAction::Turn(Direction::Right));
    assert_eq!(decode_key(key(Key::Right)), KeyAction::Turn(Direction::Right));
    assert_eq!(decode_key(key(Key::Char('c'))), KeyAction::Ignore);
    assert_eq!(decode_key(key(Key::Char('x'))), KeyAction::Ignore);
    assert_eq!(decode_key(key(Key::Other)), KeyAction::Ignore);
    assert_eq!(decode_key(KeyPress { key: Key::Char('c'), control: true }), KeyAction::Quit);
}

#[test]
fn key_updates_the_signal_code() {
    assert_eq!(on_key(UP_CODE, key(Key::Char('d'))), (RIGHT_CODE, false));
    assert_eq!(on_key(LEFT_CODE, key(Key::Char('q'))), (LEFT_CODE, false));
    assert_eq!(on_key(DOWN_CODE, KeyPress { key: Key::Char('c'), control: true }), (EXIT_CODE, true));
    assert_eq!(on_key(RIGHT_CODE, key(Key::Down)), (DOWN_CODE, false));
}

#[test]
fn signal_codes_round_trip() {
    for c in 0..5 {
        assert_eq!(Signal::from_code(c).unwrap().code(), c);
    }
    assert_eq!(Signal::from_code(EXIT_CODE), Some(Signal::Exit));
    assert_eq!(Signal::from_code(UP_CODE), Some(Signal::Move(Direction::Up)));
    assert_eq!(Signal::from_code(5), None);
}

#[test]
fn session_stops_on_exit() {
    let mut s = Session::new(15, 17, DisplayConfig::standard()).unwrap();
    assert!(matches!(s.advance(Signal::Exit), LoopStep::Stopped(Ending::Exit)));
    assert_eq!(s.game().snake().len(), 1);
}

#[test]
fn session_draws_the_first_frame() {
    let mut s = Session::new(15, 17, DisplayConfig::standard()).unwrap();
    let fruit = s.game().fruit().unwrap();
    match s.advance(Signal::Move(Direction::Up)) {
        LoopStep::Draw(ops) => {
            // The head and the fruit; after eating, also the segment left on the start cell.
            assert!(ops.contains(&DrawOp { column: 9, row: 7, glyph: 'S' }));
            let f = s.game().fruit().unwrap();
            assert!(ops.contains(&DrawOp { column: f.x + 1, row: f.y + 1, glyph: 'F' }));
            let expected = if fruit == s.game().head() { 3 } else { 2 };
            assert_eq!(ops.len(), expected);
        }
        LoopStep::Stopped(_) => panic!("the first tick cannot end the game"),
    }
}

#[test]
fn session_rejects_unusable_size() {
    assert!(Session::new(0, 3, DisplayConfig::standard()).is_none());
}
