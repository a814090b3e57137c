//! Cell contents and the row-major layout of a grid in a flat vector.

use vstd::prelude::*;
use crate::point::{Point, in_bounds};

verus! {

/// What occupies one grid cell.
#[derive(Clone, Copy, Debug, PartialEq, Eq, Structural)]
pub enum CellKind {
    Empty,
    SnakeBody,
    Fruit,
}

/// Position of `p` in a row-major vector of cells with `cols` columns.
pub open spec fn cell_index(p: Point, cols: usize) -> int {
    p.y * cols + p.x
}

/// The point stored at position `i` of a row-major vector with `cols` columns.
pub open spec fn point_at(i: int, cols: usize) -> Point {
    Point { x: (i % (cols as int)) as usize, y: (i / (cols as int)) as usize }
}

/// How many of the first `n` cells hold `k`.
pub open spec fn count_prefix(cells: Seq<CellKind>, k: CellKind, n: nat) -> nat
    decreases n,
{
    if n == 0 {
        0
    } else {
        count_prefix(cells, k, (n - 1) as nat) + if cells[n - 1] == k { 1nat } else { 0nat }
    }
}

/// How many cells hold `k`.
pub open spec fn count_of(cells: Seq<CellKind>, k: CellKind) -> nat {
    count_prefix(cells, k, cells.len())
}

/// An in-bounds point has an in-range index, and the index gives the point back.
pub proof fn lemma_index_in_range(p: Point, rows: usize, cols: usize)
    requires
        in_bounds(p, rows, cols),
    ensures
        0 <= cell_index(p, cols) < rows * cols,
        point_at(cell_index(p, cols), cols) == p,
{
    assert(p.y * cols + p.x < rows * cols) by (nonlinear_arith)
        requires p.x < cols, p.y < rows;
    assert(0 <= p.y * cols) by (nonlinear_arith);
    vstd::arithmetic::div_mod::lemma_fundamental_div_mod_converse(
        cell_index(p, cols), cols as int, p.y as int, p.x as int);
}

/// Distinct in-bounds points have distinct indices.
pub proof fn lemma_index_injective(p: Point, q: Point, rows: usize, cols: usize)
    requires
        in_bounds(p, rows, cols),
        in_bounds(q, rows, cols),
        p != q,
    ensures
        cell_index(p, cols) != cell_index(q, cols),
{
    lemma_index_in_range(p, rows, cols);
    lemma_index_in_range(q, rows, cols);
}

/// Every index below `rows * cols` belongs to an in-bounds point.
pub proof fn lemma_point_at_in_bounds(i: int, rows: usize, cols: usize)
    requires
        0 <= i < rows * cols,
        cols > 0,
    ensures
        in_bounds(point_at(i, cols), rows, cols),
        cell_index(point_at(i, cols), cols) == i,
{
    let q = i / (cols as int);
    let r = i % (cols as int);
    vstd::arithmetic::div_mod::lemma_fundamental_div_mod(i, cols as int);
    vstd::arithmetic::div_mod::lemma_div_pos_is_pos(i, cols as int);
    vstd::arithmetic::div_mod::lemma_mod_pos_bound(i, cols as int);
    assert(q < rows) by (nonlinear_arith)
        requires i == cols * q + r, 0 <= r, i < rows * cols, cols > 0;
    assert(q * cols == cols * q) by (nonlinear_arith);
}

/// Counting after one cell is overwritten.
pub proof fn lemma_count_update(cells: Seq<CellKind>, i: int, v: CellKind, k: CellKind, n: nat)
    requires
        0 <= i < cells.len(),
        n <= cells.len(),
    ensures
        count_prefix(cells.update(i, v), k, n) + (if i < n && cells[i] == k { 1int } else { 0int })
            == count_prefix(cells, k, n) + (if i < n && v == k { 1int } else { 0int }),
    decreases n,
{
    if n > 0 {
        lemma_count_update(cells, i, v, k, (n - 1) as nat);
    }
}

/// Every cell holds exactly one of the three kinds.
pub proof fn lemma_count_total(cells: Seq<CellKind>, n: nat)
    requires
        n <= cells.len(),
    ensures
        count_prefix(cells, CellKind::Empty, n) + count_prefix(cells, CellKind::SnakeBody, n)
            + count_prefix(cells, CellKind::Fruit, n) == n,
    decreases n,
{
    if n > 0 {
        lemma_count_total(cells, (n - 1) as nat);
    }
}

/// A kind that is counted at least once occurs at some index.
pub proof fn lemma_count_witness(cells: Seq<CellKind>, k: CellKind, n: nat) -> (i: int)
    requires
        n <= cells.len(),
        count_prefix(cells, k, n) > 0,
    ensures
        0 <= i < n,
        cells[i] == k,
    decreases n,
{
    if cells[n - 1] == k {
        (n - 1) as int
    } else {
        lemma_count_witness(cells, k, (n - 1) as nat)
    }
}

/// A grid of `n` cells, all empty.
pub fn empty_cells(n: usize) -> (v: Vec<CellKind>)
    ensures
        v@.len() == n,
        forall|i: int| 0 <= i < n ==> v@[i] == CellKind::Empty,
        count_of(v@, CellKind::Empty) == n,
        count_of(v@, CellKind::SnakeBody) == 0,
        count_of(v@, CellKind::Fruit) == 0,
{
    let mut v: Vec<CellKind> = Vec::new();
    for i in 0..n
        invariant
            v@.len() == i,
            forall|j: int| 0 <= j < i ==> v@[j] == CellKind::Empty,
    {
        v.push(CellKind::Empty);
    }
    proof {
        lemma_count_all_empty(v@, n as nat);
    }
    v
}

/// In a grid of empty cells only `Empty` is counted.
proof fn lemma_count_all_empty(cells: Seq<CellKind>, n: nat)
    requires
        n <= cells.len(),
        forall|i: int| 0 <= i < n ==> cells[i] == CellKind::Empty,
    ensures
        count_prefix(cells, CellKind::Empty, n) == n,
        count_prefix(cells, CellKind::SnakeBody, n) == 0,
        count_prefix(cells, CellKind::Fruit, n) == 0,
    decreases n,
{
    if n > 0 {
        lemma_count_all_empty(cells, (n - 1) as nat);
    }
}

/// Position of `p` in a row-major vector of `rows` by `cols` cells.
pub fn index_of(p: Point, rows: usize, cols: usize) -> (r: usize)
    requires
        in_bounds(p, rows, cols),
        rows * cols <= usize::MAX,
    ensures
        r == cell_index(p, cols),
        r < rows * cols,
{
    proof {
        lemma_index_in_range(p, rows, cols);
        assert(p.y * cols <= cell_index(p, cols));
    }
    p.y * cols + p.x
}

/// Copies every cell of `a` into `b`, which has the same length.
pub fn copy_cells(a: &Vec<CellKind>, b: &mut Vec<CellKind>)
    requires
        old(b).len() == a.len(),
    ensures
        final(b)@ == a@,
{
    let n = a.len();
    for i in 0..n
        invariant
            n == a.len(),
            b.len() == n,
            forall|j: int| 0 <= j < i ==> b@[j] == a@[j],
    {
        b.set(i, a[i]);
    }
    assert(b@ =~= a@);
}

} // verus!
