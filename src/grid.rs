//! Coordinates, headings and the classification of cells on a grid.
use vstd::prelude::*;

verus! {

/// A grid position `(x, y)`; `(0, 0)` is the top-left cell.
pub type Position = (i32, i32);

/// The heading of the snake.
#[derive(Clone, Copy, Debug, PartialEq, Eq, Structural)]
pub enum Direction {
    Up,
    Down,
    Left,
    Right,
}

/// The unit step that a heading moves the head by.
pub open spec fn delta(d: Direction) -> (int, int) {
    match d {
        Direction::Up => (0, -1),
        Direction::Down => (0, 1),
        Direction::Left => (-1, 0),
        Direction::Right => (1, 0),
    }
}

/// The heading that points the other way.
pub open spec fn opposite(d: Direction) -> Direction {
    match d {
        Direction::Up => Direction::Down,
        Direction::Down => Direction::Up,
        Direction::Left => Direction::Right,
        Direction::Right => Direction::Left,
    }
}

/// A cell on the outermost ring of a `w` by `h` grid.
pub open spec fn is_border(w: int, h: int, x: int, y: int) -> bool {
    0 <= x < w && 0 <= y < h && (x == 0 || x == w - 1 || y == 0 || y == h - 1)
}

/// A cell strictly inside the border ring.
pub open spec fn is_interior(w: int, h: int, x: int, y: int) -> bool {
    0 < x < w - 1 && 0 < y < h - 1
}

/// A position that touches or crosses the border: moving the head there ends the game.
pub open spec fn hits_wall(w: int, h: int, x: int, y: int) -> bool {
    !is_interior(w, h, x, y)
}

/// Every cell of the border ring is a wall: a head that lands on one ends the game.
pub proof fn border_cells_are_walls(w: int, h: int, x: int, y: int)
    requires
        is_border(w, h, x, y),
    ensures
        hits_wall(w, h, x, y),
{
}

/// On the grid, a cell is interior exactly when it is not on the border.
pub proof fn interior_is_grid_minus_border(w: int, h: int, x: int, y: int)
    requires
        0 <= x < w,
        0 <= y < h,
    ensures
        is_interior(w, h, x, y) <==> !is_border(w, h, x, y),
{
}

/// The unit step of a heading, as executable values.
pub fn step_delta(d: Direction) -> (r: (i32, i32))
    ensures
        r.0 as int == delta(d).0,
        r.1 as int == delta(d).1,
{
    match d {
        Direction::Up => (0, -1),
        Direction::Down => (0, 1),
        Direction::Left => (-1, 0),
        Direction::Right => (1, 0),
    }
}

/// Whether two positions name the same cell.
pub fn same_cell(a: Position, b: Position) -> (r: bool)
    ensures
        r == (a == b),
{
    a.0 == b.0 && a.1 == b.1
}

/// Whether `p` lies strictly inside a `width` by `height` grid.
pub fn in_interior(width: usize, height: usize, p: Position) -> (r: bool)
    ensures
        r == is_interior(width as int, height as int, p.0 as int, p.1 as int),
{
    if p.0 <= 0 || p.1 <= 0 {
        return false;
    }
    let x = p.0 as usize;
    let y = p.1 as usize;
    x + 1 < width && y + 1 < height
}

/// The heading after a request to turn to `requested`: a reversal onto the
/// opposite heading is refused, every other request is taken.
pub fn change_direction(current: Direction, requested: Direction) -> (r: Direction)
    ensures
        requested == opposite(current) ==> r == current,
        requested != opposite(current) ==> r == requested,
{
    let reversal = match requested {
        Direction::Up => current == Direction::Down,
        Direction::Down => current == Direction::Up,
        Direction::Left => current == Direction::Right,
        Direction::Right => current == Direction::Left,
    };
    if reversal {
        current
    } else {
        requested
    }
}

} // verus!
