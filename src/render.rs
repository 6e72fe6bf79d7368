//! The character frame that shows a game: border, food and snake.
use vstd::prelude::*;

use crate::game::Game;
use crate::grid::{in_interior, is_border, is_interior};

verus! {

/// Some of the first `n` body cells lies at `(x, y)`.
pub open spec fn body_covers(g: &Game, n: int, x: int, y: int) -> bool {
    exists|k: int| 0 <= k < n && g.body()[k].0 == x && g.body()[k].1 == y
}

/// The character of cell `(x, y)` in a frame drawn with only the first `n`
/// body cells: `/` on the border; inside it `#` under the snake, `*` on the
/// food, and a blank elsewhere.
pub open spec fn partial_cell(g: &Game, n: int, x: int, y: int) -> char {
    if is_border(g.width(), g.height(), x, y) {
        '/'
    } else if is_interior(g.width(), g.height(), x, y) && body_covers(g, n, x, y) {
        '#'
    } else if is_interior(g.width(), g.height(), x, y) && g.food.position.0 == x
        && g.food.position.1 == y {
        '*'
    } else {
        ' '
    }
}

/// The character of cell `(x, y)` in the frame of a game.
pub open spec fn cell_char(g: &Game, x: int, y: int) -> char {
    partial_cell(g, g.body().len() as int, x, y)
}

/// Row `y` of the frame.
pub fn render_row(game: &Game, y: usize) -> (row: Vec<char>)
    requires
        y < game.grid.1,
    ensures
        row@.len() == game.grid.0,
        forall|x: int| 0 <= x < game.grid.0 ==> row@[x] == cell_char(game, x, y as int),
{
    let (width, height) = game.grid;
    let mut row: Vec<char> = Vec::new();
    let mut x: usize = 0;
    while x < width
        invariant
            width == game.grid.0,
            height == game.grid.1,
            y < height,
            x <= width,
            row@.len() == x,
            forall|j: int|
                0 <= j < x ==> row@[j] == if is_border(width as int, height as int, j, y as int) {
                    '/'
                } else {
                    ' '
                },
        decreases width - x,
    {
        if x == 0 || x + 1 == width || y == 0 || y + 1 == height {
            row.push('/');
        } else {
            row.push(' ');
        }
        x += 1;
    }
    let food = game.food.position;
    if in_interior(width, height, food) && food.1 as usize == y {
        row.set(food.0 as usize, '*');
    }
    assert forall|j: int| 0 <= j < width implies row@[j] == partial_cell(game, 0, j, y as int) by {
        assert(!body_covers(game, 0, j, y as int));
    }
    let n = game.snake.positions.len();
    let mut i: usize = 0;
    while i < n
        invariant
            width == game.grid.0,
            height == game.grid.1,
            y < height,
            n == game.body().len(),
            i <= n,
            row@.len() == width,
            forall|j: int| 0 <= j < width ==> row@[j] == partial_cell(game, i as int, j, y as int),
        decreases n - i,
    {
        let p = game.snake.positions[i];
        if in_interior(width, height, p) && p.1 as usize == y {
            row.set(p.0 as usize, '#');
        }
        assert forall|j: int| 0 <= j < width implies row@[j] == partial_cell(game, i + 1, j, y as int) by {
            if body_covers(game, i as int, j, y as int) {
                let k = choose|k: int| 0 <= k < i && game.body()[k].0 == j && game.body()[k].1 == y;
                assert(0 <= k < i + 1 && game.body()[k].0 == j && game.body()[k].1 == y);
            }
            if p.0 == j && p.1 == y {
                assert(game.body()[i as int].0 == j && game.body()[i as int].1 == y);
            }
        }
        i += 1;
    }
    row
}

/// The whole frame, `height` rows of `width` characters, top row first.
pub fn render_grid(game: &Game) -> (rows: Vec<Vec<char>>)
    ensures
        rows@.len() == game.grid.1,
        forall|y: int| 0 <= y < game.grid.1 ==> rows@[y]@.len() == game.grid.0,
        forall|x: int, y: int|
            0 <= x < game.grid.0 && 0 <= y < game.grid.1 ==> rows@[y]@[x] == cell_char(game, x, y),
{
    let height = game.grid.1;
    let mut rows: Vec<Vec<char>> = Vec::new();
    let mut y: usize = 0;
    while y < height
        invariant
            height == game.grid.1,
            y <= height,
            rows@.len() == y,
            forall|r: int| 0 <= r < y ==> rows@[r]@.len() == game.grid.0,
            forall|x: int, r: int|
                0 <= x < game.grid.0 && 0 <= r < y ==> rows@[r]@[x] == cell_char(game, x, r),
        decreases height - y,
    {
        let row = render_row(game, y);
        rows.push(row);
        y += 1;
    }
    rows
}

} // verus!
