//! Keyboard decoding and the integer codes of the shared direction signal.

use vstd::prelude::*;
use crate::point::Direction;

verus! {

/// Code of the exit signal.
pub const EXIT_CODE: usize = 0;

/// Code of the signal to travel up.
pub const UP_CODE: usize = 1;

/// Code of the signal to travel left.
pub const LEFT_CODE: usize = 2;

/// Code of the signal to travel down.
pub const DOWN_CODE: usize = 3;

/// Code of the signal to travel right.
pub const RIGHT_CODE: usize = 4;

/// A key as the game sees it.
#[derive(Clone, Copy, Debug, PartialEq, Eq, Structural)]
pub enum Key {
    Char(char),
    Up,
    Down,
    Left,
    Right,
    Other,
}

/// A key press; `control` is set when Ctrl is the only modifier held.
#[derive(Clone, Copy, Debug, PartialEq, Eq, Structural)]
pub struct KeyPress {
    pub key: Key,
    pub control: bool,
}

/// What a key press asks for.
#[derive(Clone, Copy, Debug, PartialEq, Eq, Structural)]
pub enum KeyAction {
    /// Ctrl+C: leave the game.
    Quit,
    /// A movement key: travel in this direction.
    Turn(Direction),
    /// Any other key.
    Ignore,
}

/// What the main loop reads from the shared signal.
#[derive(Clone, Copy, Debug, PartialEq, Eq, Structural)]
pub enum Signal {
    Exit,
    Move(Direction),
}

/// The action of a key press: Ctrl+C quits; the arrow keys and w, a, s, d in
/// either case turn up, left, down and right; every other key is ignored.
pub open spec fn key_action(k: KeyPress) -> KeyAction {
    match k.key {
        Key::Char(c) => if c == 'c' && k.control {
            KeyAction::Quit
        } else if c == 'w' || c == 'W' {
            KeyAction::Turn(Direction::Up)
        } else if c == 'a' || c == 'A' {
            KeyAction::Turn(Direction::Left)
        } else if c == 's' || c == 'S' {
            KeyAction::Turn(Direction::Down)
        } else if c == 'd' || c == 'D' {
            KeyAction::Turn(Direction::Right)
        } else {
            KeyAction::Ignore
        },
        Key::Up => KeyAction::Turn(Direction::Up),
        Key::Down => KeyAction::Turn(Direction::Down),
        Key::Left => KeyAction::Turn(Direction::Left),
        Key::Right => KeyAction::Turn(Direction::Right),
        Key::Other => KeyAction::Ignore,
    }
}

/// The code that stands for signal `s`.
pub open spec fn code_of(s: Signal) -> usize {
    match s {
        Signal::Exit => EXIT_CODE,
        Signal::Move(Direction::Up) => UP_CODE,
        Signal::Move(Direction::Left) => LEFT_CODE,
        Signal::Move(Direction::Down) => DOWN_CODE,
        Signal::Move(Direction::Right) => RIGHT_CODE,
    }
}

/// Decodes a key press.
pub fn decode_key(k: KeyPress) -> (r: KeyAction)
    ensures
        r == key_action(k),
{
    match k.key {
        Key::Char(c) => {
            if c == 'c' && k.control {
                KeyAction::Quit
            } else if c == 'w' || c == 'W' {
                KeyAction::Turn(Direction::Up)
            } else if c == 'a' || c == 'A' {
                KeyAction::Turn(Direction::Left)
            } else if c == 's' || c == 'S' {
                KeyAction::Turn(Direction::Down)
            } else if c == 'd' || c == 'D' {
                KeyAction::Turn(Direction::Right)
            } else {
                KeyAction::Ignore
            }
        },
        Key::Up => KeyAction::Turn(Direction::Up),
        Key::Down => KeyAction::Turn(Direction::Down),
        Key::Left => KeyAction::Turn(Direction::Left),
        Key::Right => KeyAction::Turn(Direction::Right),
        Key::Other => KeyAction::Ignore,
    }
}

/// What the input reader does with one key press while the shared signal
/// holds `current`: the code to store, and whether to stop reading. Ctrl+C
/// stores the exit code and stops; a movement key stores its direction's code;
/// any other key stores `current` again.
pub fn on_key(current: usize, k: KeyPress) -> (r: (usize, bool))
    ensures
        r == match key_action(k) {
            KeyAction::Quit => (EXIT_CODE, true),
            KeyAction::Turn(d) => (code_of(Signal::Move(d)), false),
            KeyAction::Ignore => (current, false),
        },
{
    match decode_key(k) {
        KeyAction::Quit => (EXIT_CODE, true),
        KeyAction::Turn(d) => (Signal::Move(d).code(), false),
        KeyAction::Ignore => (current, false),
    }
}

impl Signal {
    /// The code that stands for this signal.
    pub fn code(&self) -> (r: usize)
        ensures
            r == code_of(*self),
    {
        match self {
            Signal::Exit => EXIT_CODE,
            Signal::Move(Direction::Up) => UP_CODE,
            Signal::Move(Direction::Left) => LEFT_CODE,
            Signal::Move(Direction::Down) => DOWN_CODE,
            Signal::Move(Direction::Right) => RIGHT_CODE,
        }
    }

    /// The signal a code stands for; `None` for a code that stands for none.
    pub fn from_code(c: usize) -> (r: Option<Signal>)
        ensures
            r matches Some(s) ==> code_of(s) == c,
            r is None <==> c > RIGHT_CODE,
    {
        if c == EXIT_CODE {
            Some(Signal::Exit)
        } else if c == UP_CODE {
            Some(Signal::Move(Direction::Up))
        } else if c == LEFT_CODE {
            Some(Signal::Move(Direction::Left))
        } else if c == DOWN_CODE {
            Some(Signal::Move(Direction::Down))
        } else if c == RIGHT_CODE {
            Some(Signal::Move(Direction::Right))
        } else {
            None
        }
    }
}

} // verus!
