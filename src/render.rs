//! Differential rendering: the draw operations that turn one frame into the next.

use vstd::prelude::*;
use crate::grid::{CellKind, copy_cells, empty_cells};

verus! {

/// The glyphs the board is drawn with.
#[derive(Clone, Copy, Debug, PartialEq, Eq, Structural)]
pub struct DisplayConfig {
    pub empty: char,
    pub snake: char,
    pub fruit: char,
    pub border: char,
}

/// Writes `glyph` at terminal `column` and `row`. The board's cells start at
/// column 1 and row 1, inside the border.
#[derive(Clone, Copy, Debug, PartialEq, Eq, Structural)]
pub struct DrawOp {
    pub column: usize,
    pub row: usize,
    pub glyph: char,
}

/// The glyph that shows a cell holding `k`.
pub open spec fn glyph_of(config: DisplayConfig, k: CellKind) -> char {
    match k {
        CellKind::Empty => config.empty,
        CellKind::SnakeBody => config.snake,
        CellKind::Fruit => config.fruit,
    }
}

/// The operation that draws cell `i` of a row-major grid with `cols` columns holding `k`.
pub open spec fn op_at(config: DisplayConfig, cols: usize, i: int, k: CellKind) -> DrawOp {
    DrawOp { column: (i % (cols as int) + 1) as usize, row: (i / (cols as int) + 1) as usize, glyph: glyph_of(config, k) }
}

/// The operations for the first `n` cells that differ between `prev` and
/// `cur`, in row-major order, each drawing the cell as it is in `cur`.
pub open spec fn diff_ops(config: DisplayConfig, cols: usize, prev: Seq<CellKind>, cur: Seq<CellKind>, n: nat) -> Seq<DrawOp>
    decreases n,
{
    if n == 0 {
        seq![]
    } else {
        let rest = diff_ops(config, cols, prev, cur, (n - 1) as nat);
        if prev[n - 1] != cur[n - 1] {
            rest.push(op_at(config, cols, n - 1, cur[n - 1]))
        } else {
            rest
        }
    }
}

/// How many of the first `n` cells differ between `prev` and `cur`.
pub open spec fn count_changed(prev: Seq<CellKind>, cur: Seq<CellKind>, n: nat) -> nat
    decreases n,
{
    if n == 0 {
        0
    } else {
        count_changed(prev, cur, (n - 1) as nat) + if prev[n - 1] != cur[n - 1] { 1nat } else { 0nat }
    }
}

/// Rendering the difference of two frames writes exactly one glyph per
/// changed cell: frames that differ in `k` cells give `k` operations.
pub proof fn lemma_diff_is_minimal(config: DisplayConfig, cols: usize, prev: Seq<CellKind>, cur: Seq<CellKind>, n: nat)
    ensures
        diff_ops(config, cols, prev, cur, n).len() == count_changed(prev, cur, n),
    decreases n,
{
    if n > 0 {
        lemma_diff_is_minimal(config, cols, prev, cur, (n - 1) as nat);
    }
}

impl DisplayConfig {
    /// Empty cells as `-`, the snake as `S`, the fruit as `F` and the border as `#`.
    pub fn standard() -> (r: DisplayConfig)
        ensures
            r == (DisplayConfig { empty: '-', snake: 'S', fruit: 'F', border: '#' }),
    {
        DisplayConfig { empty: '-', snake: 'S', fruit: 'F', border: '#' }
    }

    /// The glyph that shows a cell holding `k`.
    pub fn glyph(&self, k: CellKind) -> (r: char)
        ensures
            r == glyph_of(*self, k),
    {
        match k {
            CellKind::Empty => self.empty,
            CellKind::SnakeBody => self.snake,
            CellKind::Fruit => self.fruit,
        }
    }
}

/// The draw operations that bring the screen from frame `prev` to frame `cur`:
/// one for each cell whose content differs, in row-major order, and none for
/// the others.
pub fn frame_diff(config: &DisplayConfig, cols: usize, prev: &Vec<CellKind>, cur: &Vec<CellKind>) -> (ops: Vec<DrawOp>)
    requires
        cols > 0,
        prev.len() == cur.len(),
    ensures
        ops@ == diff_ops(*config, cols, prev@, cur@, cur.len() as nat),
{
    let n = cur.len();
    let mut ops: Vec<DrawOp> = Vec::new();
    let mut k: usize = 0;
    let mut x: usize = 0;
    let mut y: usize = 0;
    while k < n
        invariant
            n == cur.len(),
            n == prev.len(),
            cols > 0,
            k <= n,
            x < cols,
            k == y * cols + x,
            ops@ == diff_ops(*config, cols, prev@, cur@, k as nat),
        decreases n - k,
    {
        proof {
            vstd::arithmetic::div_mod::lemma_fundamental_div_mod_converse(k as int, cols as int, y as int, x as int);
            assert((y + 1) * cols == y * cols + cols && y <= y * cols) by (nonlinear_arith)
                requires cols > 0;
        }
        if prev[k] != cur[k] {
            ops.push(DrawOp { column: x + 1, row: y + 1, glyph: config.glyph(cur[k]) });
        }
        k = k + 1;
        if x + 1 == cols {
            x = 0;
            y = y + 1;
        } else {
            x = x + 1;
        }
    }
    ops
}

/// Draws successive frames of a board, remembering the last one drawn.
pub struct Renderer {
    config: DisplayConfig,
    cols: usize,
    prev: Vec<CellKind>,
}

impl Renderer {
    /// The glyphs drawn with.
    pub closed spec fn config_spec(&self) -> DisplayConfig {
        self.config
    }

    /// Number of columns of the board.
    pub closed spec fn cols_spec(&self) -> usize {
        self.cols
    }

    /// The frame last drawn, row by row.
    pub closed spec fn prev_spec(&self) -> Seq<CellKind> {
        self.prev@
    }

    /// A renderer for a board of `rows` by `cols` cells whose screen shows
    /// the empty board of `border_frame`.
    pub fn new(config: DisplayConfig, rows: usize, cols: usize) -> (r: Renderer)
        requires
            cols > 0,
            rows * cols <= usize::MAX,
        ensures
            r.config_spec() == config,
            r.cols_spec() == cols,
            r.prev_spec() == Seq::new((rows * cols) as nat, |i: int| CellKind::Empty),
    {
        let prev = empty_cells(rows * cols);
        let r = Renderer { config, cols, prev };
        assert(r.prev@ =~= Seq::new((rows * cols) as nat, |i: int| CellKind::Empty));
        r
    }

    /// The draw operations from the frame last drawn to `cur`, which then
    /// becomes the frame last drawn.
    pub fn render(&mut self, cur: &Vec<CellKind>) -> (ops: Vec<DrawOp>)
        requires
            old(self).cols_spec() > 0,
            cur.len() == old(self).prev_spec().len(),
        ensures
            ops@ == diff_ops(old(self).config_spec(), old(self).cols_spec(), old(self).prev_spec(), cur@, cur.len() as nat),
            final(self).prev_spec() == cur@,
            final(self).config_spec() == old(self).config_spec(),
            final(self).cols_spec() == old(self).cols_spec(),
    {
        let ops = frame_diff(&self.config, self.cols, &self.prev, cur);
        copy_cells(cur, &mut self.prev);
        ops
    }
}

/// A border line: `cols + 2` border glyphs.
pub open spec fn border_line(config: DisplayConfig, cols: usize) -> Seq<char> {
    Seq::new((cols + 2) as nat, |i: int| config.border)
}

/// A board line: a border glyph, `cols` empty-cell glyphs, a border glyph.
pub open spec fn board_line(config: DisplayConfig, cols: usize) -> Seq<char> {
    Seq::new((cols + 2) as nat, |i: int| if i == 0 || i == cols + 1 { config.border } else { config.empty })
}

/// The line drawn above and below the board.
pub fn horizontal_border(config: &DisplayConfig, cols: usize) -> (r: Vec<char>)
    requires
        cols + 2 <= usize::MAX,
    ensures
        r@ == border_line(*config, cols),
{
    let mut r: Vec<char> = Vec::new();
    for i in 0..cols + 2
        invariant
            r@ == Seq::new(i as nat, |j: int| config.border),
    {
        r.push(config.border);
        assert(r@ =~= Seq::new((i + 1) as nat, |j: int| config.border));
    }
    assert(r@ =~= border_line(*config, cols));
    r
}

/// One line of the board with every cell empty, framed by the border.
fn empty_board_line(config: &DisplayConfig, cols: usize) -> (r: Vec<char>)
    requires
        cols + 2 <= usize::MAX,
    ensures
        r@ == board_line(*config, cols),
{
    let mut r: Vec<char> = Vec::new();
    r.push(config.border);
    for i in 0..cols
        invariant
            r@ == Seq::new((i + 1) as nat, |j: int| if j == 0 { config.border } else { config.empty }),
    {
        r.push(config.empty);
        assert(r@ =~= Seq::new((i + 2) as nat, |j: int| if j == 0 { config.border } else { config.empty }));
    }
    r.push(config.border);
    assert(r@ =~= board_line(*config, cols));
    r
}

/// The screen drawn once at the start: the border around a board of `rows`
/// by `cols` empty cells, line by line from the top.
pub fn border_frame(config: &DisplayConfig, rows: usize, cols: usize) -> (r: Vec<Vec<char>>)
    requires
        rows + 2 <= usize::MAX,
        cols + 2 <= usize::MAX,
    ensures
        r@.len() == rows + 2,
        r@[0]@ == border_line(*config, cols),
        r@[rows + 1]@ == border_line(*config, cols),
        forall|i: int| 1 <= i <= rows ==> (#[trigger] r@[i])@ == board_line(*config, cols),
{
    let mut r: Vec<Vec<char>> = Vec::new();
    r.push(horizontal_border(config, cols));
    for i in 0..rows
        invariant
            cols + 2 <= usize::MAX,
            r@.len() == i + 1,
            r@[0]@ == border_line(*config, cols),
            forall|j: int| 1 <= j <= i ==> (#[trigger] r@[j])@ == board_line(*config, cols),
    {
        r.push(empty_board_line(config, cols));
    }
    r.push(horizontal_border(config, cols));
    r
}

} // verus!
