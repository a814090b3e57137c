//! Grid coordinates, directions and toroidal movement.

use vstd::prelude::*;

verus! {

/// A cell coordinate: column `x`, row `y`, both counted from 0.
#[derive(Clone, Copy, Debug, PartialEq, Eq, Structural)]
pub struct Point {
    pub x: usize,
    pub y: usize,
}

/// One of the four directions the snake can travel in.
#[derive(Clone, Copy, Debug, PartialEq, Eq, Structural)]
pub enum Direction {
    Up,
    Down,
    Left,
    Right,
}

/// `p` lies on a grid of `rows` rows and `cols` columns.
pub open spec fn in_bounds(p: Point, rows: usize, cols: usize) -> bool {
    p.x < cols && p.y < rows
}

/// The cell one step from `p` in direction `d`, wrapping at every edge.
pub open spec fn wrap_step(p: Point, d: Direction, rows: usize, cols: usize) -> Point {
    match d {
        Direction::Up => Point { x: p.x, y: if p.y == 0 { (rows - 1) as usize } else { (p.y - 1) as usize } },
        Direction::Down => Point { x: p.x, y: if p.y + 1 == rows { 0 } else { (p.y + 1) as usize } },
        Direction::Left => Point { x: if p.x == 0 { (cols - 1) as usize } else { (p.x - 1) as usize }, y: p.y },
        Direction::Right => Point { x: if p.x + 1 == cols { 0 } else { (p.x + 1) as usize }, y: p.y },
    }
}

/// Moves `p` one cell in direction `d` on a toroidal grid.
pub fn step(p: Point, d: Direction, rows: usize, cols: usize) -> (r: Point)
    requires
        in_bounds(p, rows, cols),
    ensures
        r == wrap_step(p, d, rows, cols),
        in_bounds(r, rows, cols),
{
    match d {
        Direction::Up => Point { x: p.x, y: if p.y == 0 { rows - 1 } else { p.y - 1 } },
        Direction::Down => Point { x: p.x, y: if p.y == rows - 1 { 0 } else { p.y + 1 } },
        Direction::Left => Point { x: if p.x == 0 { cols - 1 } else { p.x - 1 }, y: p.y },
        Direction::Right => Point { x: if p.x == cols - 1 { 0 } else { p.x + 1 }, y: p.y },
    }
}

/// Leaving the grid across an edge re-enters it at the opposite edge:
/// left of column 0 is the last column, right of the last column is column 0,
/// above row 0 is the last row and below the last row is row 0.
pub proof fn lemma_wraparound(x: usize, y: usize, rows: usize, cols: usize)
    requires
        x < cols,
        y < rows,
    ensures
        wrap_step(Point { x: 0, y }, Direction::Left, rows, cols) == (Point { x: (cols - 1) as usize, y }),
        wrap_step(Point { x: (cols - 1) as usize, y }, Direction::Right, rows, cols) == (Point { x: 0, y }),
        wrap_step(Point { x, y: 0 }, Direction::Up, rows, cols) == (Point { x, y: (rows - 1) as usize }),
        wrap_step(Point { x, y: (rows - 1) as usize }, Direction::Down, rows, cols) == (Point { x, y: 0 }),
{
}

} // verus!
