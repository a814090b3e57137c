//! Choosing a random empty cell for the next fruit.

use vstd::prelude::*;
use rand::distributions::Distribution;
use crate::grid::{CellKind, cell_index, count_of, lemma_count_witness, lemma_index_in_range, lemma_point_at_in_bounds, point_at};
use crate::point::{Point, in_bounds};

verus! {

/// How many random draws are made before the empty cells are searched in order.
pub const PLACEMENT_ATTEMPTS: usize = 4096;

/// Relies on rand's `Uniform::from(0..n)` sampled with `thread_rng`:
/// a value drawn uniformly from `0..n`. `Uniform::new` panics when `n` is 0;
/// `thread_rng` panics only if the operating system's random source cannot
/// seed it, which no argument can rule out.
#[verifier::external_body]
fn sample_below(n: usize) -> (r: usize)
    requires
        n > 0,
    ensures
        r < n,
{
    rand::distributions::Uniform::from(0..n).sample(&mut rand::thread_rng())
}

/// `cells` is a row-major grid of `rows` by `cols` cells with at least one empty cell.
pub open spec fn has_empty_cell(cells: Seq<CellKind>, rows: usize, cols: usize) -> bool {
    &&& rows > 0
    &&& cols > 0
    &&& cells.len() == rows * cols
    &&& count_of(cells, CellKind::Empty) > 0
}

/// The first empty cell in row-major order.
fn first_empty_cell(cells: &Vec<CellKind>, rows: usize, cols: usize) -> (p: Point)
    requires
        has_empty_cell(cells@, rows, cols),
    ensures
        in_bounds(p, rows, cols),
        cells@[cell_index(p, cols)] == CellKind::Empty,
{
    let n = cells.len();
    let mut k: usize = 0;
    let mut x: usize = 0;
    let mut y: usize = 0;
    proof {
        let w = lemma_count_witness(cells@, CellKind::Empty, n as nat);
    }
    while k < n
        invariant
            n == cells.len(),
            has_empty_cell(cells@, rows, cols),
            k <= n,
            x < cols,
            k == y * cols + x,
            exists|w: int| k <= w < n && cells@[w] == CellKind::Empty,
            forall|j: int| 0 <= j < k ==> cells@[j] != CellKind::Empty,
        decreases n - k,
    {
        if cells[k] == CellKind::Empty {
            let p = Point { x, y };
            proof {
                vstd::arithmetic::div_mod::lemma_fundamental_div_mod_converse(
                    k as int, cols as int, y as int, x as int);
                lemma_point_at_in_bounds(k as int, rows, cols);
                assert(point_at(k as int, cols) == p);
            }
            return p;
        }
        proof {
            assert((y + 1) * cols == y * cols + cols && y <= y * cols) by (nonlinear_arith)
                requires cols > 0;
        }
        k = k + 1;
        if x + 1 == cols {
            x = 0;
            y = y + 1;
        } else {
            x = x + 1;
        }
    }
    proof {
        let w = choose|w: int| k <= w < n && cells@[w] == CellKind::Empty;
    }
    Point { x: 0, y: 0 }
}

/// Picks a cell that is empty in `cells`, drawing columns and rows uniformly
/// at random until an empty one turns up. After `PLACEMENT_ATTEMPTS` misses
/// the first empty cell in row-major order is taken instead, so the search
/// always ends.
pub fn get_random_empty_cell(cells: &Vec<CellKind>, rows: usize, cols: usize) -> (p: Point)
    requires
        has_empty_cell(cells@, rows, cols),
    ensures
        in_bounds(p, rows, cols),
        cells@[cell_index(p, cols)] == CellKind::Empty,
{
    let mut tries: usize = 0;
    while tries < PLACEMENT_ATTEMPTS
        invariant
            has_empty_cell(cells@, rows, cols),
        decreases PLACEMENT_ATTEMPTS - tries,
    {
        let x = sample_below(cols);
        let y = sample_below(rows);
        let p = Point { x, y };
        proof {
            lemma_index_in_range(p, rows, cols);
            assert(y * cols <= y * cols + x < cells.len());
        }
        if cells[y * cols + x] == CellKind::Empty {
            return p;
        }
        tries = tries + 1;
    }
    first_empty_cell(cells, rows, cols)
}

} // verus!
