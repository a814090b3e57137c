//! The game state (grid, snake, fruit) and the transition of one tick.

use vstd::prelude::*;
use crate::fruit::get_random_empty_cell;
use crate::grid::{
    CellKind, cell_index, count_of, lemma_count_total, lemma_count_update,
    lemma_index_in_range, lemma_index_injective,
};
use crate::point::{Direction, Point, in_bounds, step, wrap_step};

verus! {

/// Number of rows of the standard board.
pub const ROWS: usize = 15;

/// Number of columns of the standard board.
pub const COLS: usize = 17;

/// What one tick ended in.
#[derive(Clone, Copy, Debug, PartialEq, Eq, Structural)]
pub enum TickOutcome {
    /// The game goes on.
    Continue,
    /// The head ran into the snake's own body.
    Lost,
    /// The snake fills the whole board.
    Won,
}

/// A running game: the grid, the snake (head first) and the fruit.
/// `fruit` is `None` only once the snake fills the board.
pub struct GameState {
    rows: usize,
    cols: usize,
    cells: Vec<CellKind>,
    snake: Vec<Point>,
    fruit: Option<Point>,
}

/// What a cell holds on a board with the given snake and fruit.
pub open spec fn kind_for(snake: Seq<Point>, fruit: Option<Point>, p: Point) -> CellKind {
    if snake.contains(p) {
        CellKind::SnakeBody
    } else if fruit == Some(p) {
        CellKind::Fruit
    } else {
        CellKind::Empty
    }
}

/// The board's size is usable: at least two cells, and their count fits in `usize`.
pub open spec fn valid_size(rows: usize, cols: usize) -> bool {
    &&& rows > 0
    &&& cols > 0
    &&& rows * cols >= 2
    &&& rows * cols <= usize::MAX
}

/// A snake and a fruit that can stand on a board of the given size: the snake
/// is non-empty, lies on the board and never covers a cell twice, and the fruit
/// lies on the board outside the snake.
pub open spec fn valid_layout(rows: usize, cols: usize, snake: Seq<Point>, fruit: Point) -> bool {
    &&& valid_size(rows, cols)
    &&& snake.len() > 0
    &&& forall|i: int| 0 <= i < snake.len() ==> in_bounds(#[trigger] snake[i], rows, cols)
    &&& snake.no_duplicates()
    &&& in_bounds(fruit, rows, cols)
    &&& !snake.contains(fruit)
}

/// The snake after its head moves to `head` without eating: every segment
/// takes the place of the one before it and the tail cell is left.
pub open spec fn moved(snake: Seq<Point>, head: Point) -> Seq<Point> {
    seq![head] + snake.drop_last()
}

/// The snake after its head moves to `head` and eats: the segments shift as in
/// `moved`, and a new tail segment stays on the old tail cell.
pub open spec fn grown(snake: Seq<Point>, head: Point) -> Seq<Point> {
    seq![head] + snake
}

impl GameState {
    /// Number of rows.
    pub closed spec fn rows_spec(&self) -> usize {
        self.rows
    }

    /// Number of columns.
    pub closed spec fn cols_spec(&self) -> usize {
        self.cols
    }

    /// The grid, row by row.
    pub closed spec fn cells_spec(&self) -> Seq<CellKind> {
        self.cells@
    }

    /// The snake's segments, head first.
    pub closed spec fn snake_spec(&self) -> Seq<Point> {
        self.snake@
    }

    /// Where the fruit is, if the board still has one.
    pub closed spec fn fruit_spec(&self) -> Option<Point> {
        self.fruit
    }

    /// The grid cell at `p`.
    pub open spec fn cell(&self, p: Point) -> CellKind {
        self.cells_spec()[cell_index(p, self.cols_spec())]
    }

    /// Where the head goes next when the snake travels in direction `d`.
    pub open spec fn next_head(&self, d: Direction) -> Point {
        wrap_step(self.snake_spec()[0], d, self.rows_spec(), self.cols_spec())
    }

    /// The state's invariant: the grid marks exactly the snake's cells as body
    /// and the fruit's cell as fruit, the snake covers no cell twice, and the
    /// fruit lies outside the snake.
    pub open spec fn wf(&self) -> bool {
        let (rows, cols) = (self.rows_spec(), self.cols_spec());
        let (cells, snake, fruit) = (self.cells_spec(), self.snake_spec(), self.fruit_spec());
        &&& valid_size(rows, cols)
        &&& cells.len() == rows * cols
        &&& snake.len() > 0
        &&& forall|i: int| 0 <= i < snake.len() ==> in_bounds(#[trigger] snake[i], rows, cols)
        &&& snake.no_duplicates()
        &&& match fruit {
            Some(f) => in_bounds(f, rows, cols) && !snake.contains(f),
            None => snake.len() == rows * cols,
        }
        &&& forall|p: Point| in_bounds(p, rows, cols) ==> #[trigger] self.cell(p) == kind_for(snake, fruit, p)
        &&& count_of(cells, CellKind::SnakeBody) == snake.len()
        &&& count_of(cells, CellKind::Fruit) == (if fruit is Some { 1nat } else { 0nat })
    }
}

} // verus!

verus! {

/// Which points a snake holds after moving without eating.
proof fn lemma_moved_contains(s: Seq<Point>, h: Point, p: Point)
    requires
        s.len() > 0,
        s.no_duplicates(),
    ensures
        moved(s, h).contains(p) <==> (p == h || (s.contains(p) && p != s.last())),
{
    let m = moved(s, h);
    if s.contains(p) && p != s.last() {
        let i = choose|i: int| 0 <= i < s.len() && s[i] == p;
        assert(m[i + 1] == p);
    }
    if m.contains(p) && p != h {
        let j = choose|j: int| 0 <= j < m.len() && m[j] == p;
        assert(s[j - 1] == p);
        assert(j - 1 != s.len() - 1);
    }
    if p == h {
        assert(m[0] == p);
    }
}

/// Which points a snake holds after moving and eating.
proof fn lemma_grown_contains(s: Seq<Point>, h: Point, p: Point)
    ensures
        grown(s, h).contains(p) <==> (p == h || s.contains(p)),
{
    let g = grown(s, h);
    if s.contains(p) {
        let i = choose|i: int| 0 <= i < s.len() && s[i] == p;
        assert(g[i + 1] == p);
    }
    if g.contains(p) && p != h {
        let j = choose|j: int| 0 <= j < g.len() && g[j] == p;
        assert(s[j - 1] == p);
    }
    if p == h {
        assert(g[0] == p);
    }
}

/// What one tick in direction `d` may turn `pre` into, with outcome `r`.
pub open spec fn tick_post(pre: GameState, d: Direction, post: GameState, r: TickOutcome) -> bool {
    let h = pre.next_head(d);
    let (rows, cols) = (pre.rows_spec(), pre.cols_spec());
    &&& post.wf()
    &&& post.rows_spec() == rows
    &&& post.cols_spec() == cols
    &&& (r == TickOutcome::Lost) <==> pre.cell(h) == CellKind::SnakeBody
    &&& r == TickOutcome::Lost ==> post == pre
    &&& r != TickOutcome::Lost && pre.fruit_spec() == Some(h) ==> {
        &&& post.snake_spec() == grown(pre.snake_spec(), h)
        &&& (r == TickOutcome::Won) <==> post.snake_spec().len() == rows * cols
        &&& r == TickOutcome::Won ==> post.fruit_spec() is None
        &&& r == TickOutcome::Continue ==> post.fruit_spec() is Some
            && pre.cell(post.fruit_spec()->0) == CellKind::Empty
    }
    &&& r != TickOutcome::Lost && pre.fruit_spec() != Some(h) ==> {
        &&& r == TickOutcome::Continue
        &&& post.snake_spec() == moved(pre.snake_spec(), h)
        &&& post.fruit_spec() == pre.fruit_spec()
    }
}

impl GameState {
    /// Advances the game by one tick with the snake travelling in direction `d`.
    ///
    /// The game is lost exactly when the next head cell holds the snake's body
    /// before the move (the tail cell included); the state is then left as it
    /// was. Otherwise the head moves there. If it meets the fruit, the snake
    /// grows by one segment on the old tail cell; the game is won exactly when
    /// the snake then fills the board, and otherwise a new fruit goes on a cell
    /// that was empty. If it meets no fruit, the old tail cell is vacated.
    pub fn tick(&mut self, d: Direction) -> (r: TickOutcome)
        requires
            old(self).wf(),
        ensures
            tick_post(*old(self), d, *final(self), r),
    {
        let rows = self.rows;
        let cols = self.cols;
        let n = self.snake.len();
        let dest = step(self.snake[0], d, rows, cols);
        let di = crate::grid::index_of(dest, rows, cols);
        // The grid is read as it stood before the move: the cell the tail is
        // about to leave still counts as body.
        if self.cells[di] == CellKind::SnakeBody {
            return TickOutcome::Lost;
        }
        let ghost cells0 = self.cells@;
        let ghost snake0 = self.snake@;
        let ghost fruit0 = self.fruit;
        proof {
            assert(self.cell(dest) == kind_for(snake0, fruit0, dest));
            assert(!snake0.contains(dest));
            assert(in_bounds(snake0[n - 1], rows, cols));
            assert(self.cell(snake0[n - 1]) == kind_for(snake0, fruit0, snake0[n - 1]));
            assert(snake0.contains(snake0[n - 1]));
            lemma_count_total(cells0, cells0.len());
        }
        let eats = match self.fruit {
            Some(f) => f == dest,
            None => false,
        };
        self.snake.insert(0, dest);
        if eats {
            self.cells.set(di, CellKind::SnakeBody);
            let ghost cells1 = self.cells@;
            proof {
                assert(self.snake@ =~= grown(snake0, dest));
                lemma_count_update(cells0, di as int, CellKind::SnakeBody, CellKind::SnakeBody, cells0.len());
                lemma_count_update(cells0, di as int, CellKind::SnakeBody, CellKind::Fruit, cells0.len());
                lemma_count_total(cells1, cells1.len());
                assert forall|p: Point| in_bounds(p, rows, cols) && p != dest implies
                    cells1[cell_index(p, cols)] == cells0[cell_index(p, cols)] by {
                    lemma_index_in_range(p, rows, cols);
                    lemma_index_injective(p, dest, rows, cols);
                }
                assert forall|i: int, j: int| 0 <= i < self.snake@.len() && 0 <= j < self.snake@.len() && i != j
                    implies self.snake@[i] != self.snake@[j] by {
                    if i == 0 {
                        assert(snake0[j - 1] == self.snake@[j]);
                    } else if j == 0 {
                        assert(snake0[i - 1] == self.snake@[i]);
                    }
                }
            }
            if n + 1 == rows * cols {
                self.fruit = None;
                proof {
                    assert forall|p: Point| in_bounds(p, rows, cols) implies
                        #[trigger] self.cell(p) == kind_for(self.snake@, None, p) by {
                        lemma_index_in_range(p, rows, cols);
                        lemma_grown_contains(snake0, dest, p);
                        assert(old(self).cell(p) == kind_for(snake0, fruit0, p));
                        if p != dest {
                            assert(cells1[cell_index(p, cols)] == cells0[cell_index(p, cols)]);
                        }
                    }
                }
                return TickOutcome::Won;
            }
            let f = get_random_empty_cell(&self.cells, rows, cols);
            let fi = crate::grid::index_of(f, rows, cols);
            self.cells.set(fi, CellKind::Fruit);
            self.fruit = Some(f);
            proof {
                lemma_count_update(cells1, fi as int, CellKind::Fruit, CellKind::SnakeBody, cells1.len());
                lemma_count_update(cells1, fi as int, CellKind::Fruit, CellKind::Fruit, cells1.len());
                assert(f != dest);
                lemma_index_injective(f, dest, rows, cols);
                assert(kind_for(self.snake@, None, f) == CellKind::Empty);
                assert forall|p: Point| in_bounds(p, rows, cols) && p != f implies
                    self.cells@[cell_index(p, cols)] == cells1[cell_index(p, cols)] by {
                    lemma_index_in_range(p, rows, cols);
                    lemma_index_injective(p, f, rows, cols);
                }
                assert(self.cell(f) == CellKind::Fruit);
                assert forall|p: Point| in_bounds(p, rows, cols) implies
                    #[trigger] self.cell(p) == kind_for(self.snake@, self.fruit, p) by {
                    lemma_index_in_range(p, rows, cols);
                    lemma_grown_contains(snake0, dest, p);
                    assert(old(self).cell(p) == kind_for(snake0, fruit0, p));
                    if p != f {
                        assert(self.cells@[cell_index(p, cols)] == cells1[cell_index(p, cols)]);
                        if p != dest {
                            assert(cells1[cell_index(p, cols)] == cells0[cell_index(p, cols)]);
                        }
                    }
                }
            }
            TickOutcome::Continue
        } else {
            let tail = self.snake.pop().unwrap();
            let ti = crate::grid::index_of(tail, rows, cols);
            self.cells.set(ti, CellKind::Empty);
            let ghost cells1 = self.cells@;
            self.cells.set(di, CellKind::SnakeBody);
            proof {
                assert(self.snake@ =~= moved(snake0, dest));
                assert(tail == snake0.last());
                assert(tail != dest);
                lemma_index_injective(tail, dest, rows, cols);
                lemma_count_update(cells0, ti as int, CellKind::Empty, CellKind::SnakeBody, cells0.len());
                lemma_count_update(cells0, ti as int, CellKind::Empty, CellKind::Fruit, cells0.len());
                lemma_count_update(cells1, di as int, CellKind::SnakeBody, CellKind::SnakeBody, cells1.len());
                lemma_count_update(cells1, di as int, CellKind::SnakeBody, CellKind::Fruit, cells1.len());
                assert forall|p: Point| in_bounds(p, rows, cols) && p != dest && p != tail implies
                    self.cells@[cell_index(p, cols)] == cells0[cell_index(p, cols)] by {
                    lemma_index_in_range(p, rows, cols);
                    lemma_index_injective(p, dest, rows, cols);
                    lemma_index_injective(p, tail, rows, cols);
                }
                assert forall|i: int, j: int| 0 <= i < self.snake@.len() && 0 <= j < self.snake@.len() && i != j
                    implies self.snake@[i] != self.snake@[j] by {
                    if i == 0 {
                        assert(snake0[j - 1] == self.snake@[j]);
                    } else if j == 0 {
                        assert(snake0[i - 1] == self.snake@[i]);
                    }
                }
                if let Some(f) = fruit0 {
                    lemma_moved_contains(snake0, dest, f);
                }
                assert forall|p: Point| in_bounds(p, rows, cols) implies
                    #[trigger] self.cell(p) == kind_for(self.snake@, self.fruit, p) by {
                    lemma_index_in_range(p, rows, cols);
                    lemma_moved_contains(snake0, dest, p);
                    assert(old(self).cell(p) == kind_for(snake0, fruit0, p));
                    if p != dest && p != tail {
                        assert(self.cells@[cell_index(p, cols)] == cells0[cell_index(p, cols)]);
                    }
                }
            }
            TickOutcome::Continue
        }
    }
}

} // verus!

verus! {

impl GameState {
    /// Builds a game from a given snake (head first) and fruit. Returns `None`
    /// unless they form a valid layout on a board of `rows` by `cols` cells.
    pub fn with_layout(rows: usize, cols: usize, snake: Vec<Point>, fruit: Point) -> (r: Option<GameState>)
        ensures
            r is Some <==> valid_layout(rows, cols, snake@, fruit),
            r matches Some(g) ==> {
                &&& g.wf()
                &&& g.rows_spec() == rows
                &&& g.cols_spec() == cols
                &&& g.snake_spec() == snake@
                &&& g.fruit_spec() == Some(fruit)
            },
    {
        if rows == 0 || cols == 0 {
            return None;
        }
        let total = match rows.checked_mul(cols) {
            Some(t) => t,
            None => return None,
        };
        if total < 2 || snake.len() == 0 {
            return None;
        }
        let n = snake.len();
        let mut cells = crate::grid::empty_cells(total);
        proof {
            assert forall|p: Point| in_bounds(p, rows, cols) implies
                #[trigger] cells@[cell_index(p, cols)] == CellKind::Empty by {
                lemma_index_in_range(p, rows, cols);
            }
        }
        for i in 0..n
            invariant
                n == snake.len(),
                valid_size(rows, cols),
                total == rows * cols,
                cells@.len() == total,
                forall|j: int| 0 <= j < i ==> in_bounds(#[trigger] snake@[j], rows, cols),
                forall|j: int, k: int| 0 <= j < i && 0 <= k < i && j != k ==> snake@[j] != snake@[k],
                forall|p: Point| in_bounds(p, rows, cols) ==> {
                    let c = #[trigger] cells@[cell_index(p, cols)];
                    &&& (c == CellKind::SnakeBody <==> exists|j: int| 0 <= j < i && snake@[j] == p)
                    &&& (c == CellKind::SnakeBody || c == CellKind::Empty)
                },
                count_of(cells@, CellKind::SnakeBody) == i,
                count_of(cells@, CellKind::Fruit) == 0,
        {
            let p = snake[i];
            if p.x >= cols || p.y >= rows {
                return None;
            }
            let pi = crate::grid::index_of(p, rows, cols);
            if cells[pi] == CellKind::SnakeBody {
                proof {
                    let j = choose|j: int| 0 <= j < i && snake@[j] == p;
                    assert(snake@[j] == snake@[i as int]);
                }
                return None;
            }
            let ghost before = cells@;
            cells.set(pi, CellKind::SnakeBody);
            proof {
                lemma_count_update(before, pi as int, CellKind::SnakeBody, CellKind::SnakeBody, before.len());
                lemma_count_update(before, pi as int, CellKind::SnakeBody, CellKind::Fruit, before.len());
                assert forall|q: Point| in_bounds(q, rows, cols) implies {
                    let c = #[trigger] cells@[cell_index(q, cols)];
                    &&& (c == CellKind::SnakeBody <==> exists|j: int| 0 <= j < i + 1 && snake@[j] == q)
                    &&& (c == CellKind::SnakeBody || c == CellKind::Empty)
                } by {
                    lemma_index_in_range(q, rows, cols);
                    if q != p {
                        lemma_index_injective(q, p, rows, cols);
                        if exists|j: int| 0 <= j < i + 1 && snake@[j] == q {
                            let j = choose|j: int| 0 <= j < i + 1 && snake@[j] == q;
                            assert(j < i);
                        }
                    } else {
                        assert(snake@[i as int] == q);
                    }
                }
            }
        }
        if fruit.x >= cols || fruit.y >= rows {
            return None;
        }
        let fi = crate::grid::index_of(fruit, rows, cols);
        if cells[fi] == CellKind::SnakeBody {
            return None;
        }
        let ghost before = cells@;
        cells.set(fi, CellKind::Fruit);
        let g = GameState { rows, cols, cells, snake, fruit: Some(fruit) };
        proof {
            lemma_count_update(before, fi as int, CellKind::Fruit, CellKind::SnakeBody, before.len());
            lemma_count_update(before, fi as int, CellKind::Fruit, CellKind::Fruit, before.len());
            assert forall|p: Point| in_bounds(p, rows, cols) implies #[trigger] g.cell(p) == kind_for(g.snake@, g.fruit, p) by {
                lemma_index_in_range(p, rows, cols);
                if p != fruit {
                    lemma_index_injective(p, fruit, rows, cols);
                }
                if exists|j: int| 0 <= j < n && snake@[j] == p {
                    let j = choose|j: int| 0 <= j < n && snake@[j] == p;
                    assert(g.snake@[j] == p);
                }
            }
        }
        Some(g)
    }
}

} // verus!

verus! {

impl GameState {
    /// Starts a game on a board of `rows` by `cols` cells: a snake of one
    /// segment in the middle of the board and a fruit on a random empty cell.
    /// Returns `None` when the board is too small (under two cells) or its cell
    /// count does not fit in `usize`.
    pub fn new(rows: usize, cols: usize) -> (r: Option<GameState>)
        ensures
            r is Some <==> valid_size(rows, cols),
            r matches Some(g) ==> {
                &&& g.wf()
                &&& g.rows_spec() == rows
                &&& g.cols_spec() == cols
                &&& g.snake_spec() == seq![Point { x: cols / 2, y: rows / 2 }]
                &&& g.fruit_spec() is Some
            },
    {
        if rows == 0 || cols == 0 {
            return None;
        }
        let total = match rows.checked_mul(cols) {
            Some(t) => t,
            None => return None,
        };
        if total < 2 {
            return None;
        }
        let head = Point { x: cols / 2, y: rows / 2 };
        let mut cells = crate::grid::empty_cells(total);
        let hi = crate::grid::index_of(head, rows, cols);
        let ghost before = cells@;
        cells.set(hi, CellKind::SnakeBody);
        proof {
            lemma_count_update(before, hi as int, CellKind::SnakeBody, CellKind::Empty, before.len());
        }
        let fruit = get_random_empty_cell(&cells, rows, cols);
        proof {
            if fruit == head {
                assert(cells@[hi as int] == CellKind::SnakeBody);
            }
        }
        let mut snake: Vec<Point> = Vec::new();
        snake.push(head);
        proof {
            assert(snake@ =~= seq![head]);
            assert(!snake@.contains(fruit));
            assert(snake@.no_duplicates());
        }
        GameState::with_layout(rows, cols, snake, fruit)
    }
}

} // verus!

verus! {

/// In every well-formed state the cells marked as snake body are exactly the
/// snake's points, and there are as many of them as the snake has segments.
pub proof fn lemma_body_cells_are_snake(g: GameState)
    requires
        g.wf(),
    ensures
        Set::new(|p: Point| in_bounds(p, g.rows_spec(), g.cols_spec()) && g.cell(p) == CellKind::SnakeBody)
            == g.snake_spec().to_set(),
        g.snake_spec().to_set().len() == g.snake_spec().len(),
        count_of(g.cells_spec(), CellKind::SnakeBody) == g.snake_spec().len(),
{
    let s = g.snake_spec();
    assert forall|p: Point| #[trigger] s.to_set().contains(p) implies in_bounds(p, g.rows_spec(), g.cols_spec()) by {
        let i = choose|i: int| 0 <= i < s.len() && s[i] == p;
    }
    assert(Set::new(|p: Point| in_bounds(p, g.rows_spec(), g.cols_spec()) && g.cell(p) == CellKind::SnakeBody)
        =~= s.to_set());
    s.unique_seq_to_set();
}

/// In every well-formed state the fruit, while there is one, lies outside the
/// snake on a cell marked as fruit.
pub proof fn lemma_fruit_outside_snake(g: GameState)
    requires
        g.wf(),
    ensures
        g.fruit_spec() matches Some(f) ==> !g.snake_spec().contains(f) && g.cell(f) == CellKind::Fruit,
{
}

/// Growing adds exactly one segment, and the new last segment is the old tail.
pub proof fn lemma_growth_keeps_tail(snake: Seq<Point>, head: Point)
    requires
        snake.len() > 0,
    ensures
        grown(snake, head).len() == snake.len() + 1,
        grown(snake, head).last() == snake.last(),
        grown(snake, head)[0] == head,
{
}

impl GameState {
    /// Number of rows.
    pub fn rows(&self) -> (r: usize)
        ensures
            r == self.rows_spec(),
    {
        self.rows
    }

    /// Number of columns.
    pub fn cols(&self) -> (r: usize)
        ensures
            r == self.cols_spec(),
    {
        self.cols
    }

    /// The snake's segments, head first.
    pub fn snake(&self) -> (r: &Vec<Point>)
        ensures
            r@ == self.snake_spec(),
    {
        &self.snake
    }

    /// The head segment.
    pub fn head(&self) -> (r: Point)
        requires
            self.wf(),
        ensures
            r == self.snake_spec()[0],
    {
        self.snake[0]
    }

    /// Where the fruit is, if the board still has one.
    pub fn fruit(&self) -> (r: Option<Point>)
        ensures
            r == self.fruit_spec(),
    {
        self.fruit
    }

    /// The grid, row by row.
    pub fn cells(&self) -> (r: &Vec<CellKind>)
        ensures
            r@ == self.cells_spec(),
    {
        &self.cells
    }

    /// What the cell at `p` holds.
    pub fn cell_at(&self, p: Point) -> (r: CellKind)
        requires
            self.wf(),
            in_bounds(p, self.rows_spec(), self.cols_spec()),
        ensures
            r == self.cell(p),
            r == kind_for(self.snake_spec(), self.fruit_spec(), p),
    {
        let i = crate::grid::index_of(p, self.rows, self.cols);
        self.cells[i]
    }
}

} // verus!
