//! The decisions of the game loop: one step per tick, from the signal read to
//! what must be drawn or how the game ended.

use vstd::prelude::*;
use crate::game::{GameState, TickOutcome, tick_post, valid_size};
use crate::input::Signal;
use crate::render::{DisplayConfig, DrawOp, Renderer, diff_ops};

verus! {

/// Milliseconds between two ticks.
pub const TICK_MILLIS: u64 = 100;

/// Why the loop stopped.
#[derive(Clone, Copy, Debug, PartialEq, Eq, Structural)]
pub enum Ending {
    /// The player asked to leave.
    Exit,
    /// The snake ran into itself.
    Lost,
    /// The snake fills the board.
    Won,
}

/// What the loop does after one step.
#[derive(Debug)]
pub enum LoopStep {
    /// Draw these operations, flush, sleep and read the signal again.
    Draw(Vec<DrawOp>),
    /// Leave the loop.
    Stopped(Ending),
}

/// A game together with the renderer that shows it.
pub struct Session {
    game: GameState,
    renderer: Renderer,
}

impl Session {
    /// The game being played.
    pub closed spec fn game_spec(&self) -> GameState {
        self.game
    }

    /// The renderer showing it.
    pub closed spec fn renderer_spec(&self) -> Renderer {
        self.renderer
    }

    /// The session's invariant: a well-formed game, and a renderer whose last
    /// frame has the board's size.
    pub open spec fn wf(&self) -> bool {
        &&& self.game_spec().wf()
        &&& self.renderer_spec().cols_spec() == self.game_spec().cols_spec()
        &&& self.renderer_spec().prev_spec().len() == self.game_spec().cells_spec().len()
    }

    /// Starts a session on a board of `rows` by `cols` cells drawn with
    /// `config`; `None` when the size is unusable (see `GameState::new`).
    pub fn new(rows: usize, cols: usize, config: DisplayConfig) -> (r: Option<Session>)
        ensures
            r is Some <==> valid_size(rows, cols),
            r matches Some(s) ==> {
                &&& s.wf()
                &&& s.game_spec().rows_spec() == rows
                &&& s.game_spec().cols_spec() == cols
                &&& s.game_spec().snake_spec().len() == 1
                &&& s.renderer_spec().config_spec() == config
                &&& s.renderer_spec().prev_spec() == Seq::new((rows * cols) as nat, |i: int| crate::grid::CellKind::Empty)
            },
    {
        match GameState::new(rows, cols) {
            Some(game) => {
                let renderer = Renderer::new(config, rows, cols);
                Some(Session { game, renderer })
            },
            None => None,
        }
    }

    /// The game being played.
    pub fn game(&self) -> (r: &GameState)
        ensures
            r == self.game_spec(),
    {
        &self.game
    }

    /// One iteration of the loop with the signal read this tick. The exit
    /// signal stops the loop and changes nothing. A direction ticks the game:
    /// a lost or won game stops the loop; otherwise the result is the draw
    /// operations from the last frame to the new board.
    pub fn advance(&mut self, signal: Signal) -> (step: LoopStep)
        requires
            old(self).wf(),
        ensures
            final(self).wf(),
            signal == Signal::Exit ==> step == LoopStep::Stopped(Ending::Exit) && *final(self) == *old(self),
            signal matches Signal::Move(d) ==> exists|r: TickOutcome| {
                &&& tick_post(old(self).game_spec(), d, final(self).game_spec(), r)
                &&& r == TickOutcome::Lost ==> step == LoopStep::Stopped(Ending::Lost)
                &&& r == TickOutcome::Won ==> step == LoopStep::Stopped(Ending::Won)
                &&& r == TickOutcome::Continue ==> {
                    &&& step matches LoopStep::Draw(ops)
                    &&& ops@ == diff_ops(
                        old(self).renderer_spec().config_spec(),
                        old(self).renderer_spec().cols_spec(),
                        old(self).renderer_spec().prev_spec(),
                        final(self).game_spec().cells_spec(),
                        final(self).game_spec().cells_spec().len(),
                    )
                    &&& final(self).renderer_spec().prev_spec() == final(self).game_spec().cells_spec()
                }
            },
    {
        match signal {
            Signal::Exit => LoopStep::Stopped(Ending::Exit),
            Signal::Move(d) => {
                let r = self.game.tick(d);
                match r {
                    TickOutcome::Lost => LoopStep::Stopped(Ending::Lost),
                    TickOutcome::Won => LoopStep::Stopped(Ending::Won),
                    TickOutcome::Continue => {
                        let ops = self.renderer.render(self.game.cells());
                        LoopStep::Draw(ops)
                    },
                }
            },
        }
    }
}

} // verus!
