//! The state of a game and the simulation step that advances it by one tick.
use vstd::prelude::*;

use crate::grid::{change_direction, delta, hits_wall, in_interior, is_interior, opposite, same_cell, step_delta, Direction, Position};

verus! {

/// The food on the grid; it is only ever moved, never removed.
#[derive(Clone, Copy, Debug)]
pub struct Food {
    pub position: Position,
}

impl Food {
    /// Food at its starting cell `(10, 10)`.
    pub fn new() -> (r: Food)
        ensures
            r.position == (10i32, 10i32),
    {
        Food { position: (10, 10) }
    }
}

/// The snake: its heading and its body, head first.
pub struct Snake {
    pub direction: Direction,
    pub positions: Vec<Position>,
}

impl Snake {
    /// A snake of one cell at `(12, 10)`, heading right.
    pub fn new() -> (r: Snake)
        ensures
            r.direction == Direction::Right,
            r.positions@ == seq![(12i32, 10i32)],
    {
        Snake { direction: Direction::Right, positions: vec![(12, 10)] }
    }
}

/// A whole game: grid size `(width, height)`, the game-over flag, the snake,
/// the food and the score.
pub struct Game {
    pub grid: (usize, usize),
    pub game_over: bool,
    pub snake: Snake,
    pub food: Food,
    pub score: i32,
}

impl Game {
    /// The snake has a head, the grid fits the coordinate type, and the head
    /// can take one more step without leaving it.
    pub open spec fn wf(&self) -> bool {
        &&& self.snake.positions@.len() >= 1
        &&& self.grid.0 <= i32::MAX
        &&& self.grid.1 <= i32::MAX
        &&& i32::MIN < self.head().0 < i32::MAX
        &&& i32::MIN < self.head().1 < i32::MAX
    }

    /// The number of columns.
    pub open spec fn width(&self) -> int {
        self.grid.0 as int
    }

    /// The number of rows.
    pub open spec fn height(&self) -> int {
        self.grid.1 as int
    }

    /// The body cells, head first.
    pub open spec fn body(&self) -> Seq<Position> {
        self.snake.positions@
    }

    /// The head cell.
    pub open spec fn head(&self) -> Position {
        self.snake.positions@[0]
    }

    /// Where the head goes on the next tick.
    pub open spec fn next_head(&self) -> (int, int) {
        let d = delta(self.snake.direction);
        (self.head().0 + d.0, self.head().1 + d.1)
    }

    /// The next head touches or crosses the border.
    pub open spec fn wall_ahead(&self) -> bool {
        hits_wall(self.width(), self.height(), self.next_head().0, self.next_head().1)
    }

    /// The next head lands on a body cell other than the current head.
    pub open spec fn body_ahead(&self) -> bool {
        exists|i: int|
            1 <= i < self.body().len() && self.body()[i].0 == self.next_head().0
                && self.body()[i].1 == self.next_head().1
    }

    /// The next tick ends the game.
    pub open spec fn blocked(&self) -> bool {
        self.wall_ahead() || self.body_ahead()
    }

    /// The next tick moves the head onto the food.
    pub open spec fn eats(&self) -> bool {
        &&& !self.blocked()
        &&& self.food.position.0 == self.next_head().0
        &&& self.food.position.1 == self.next_head().1
    }

    /// A fresh game on a `width` by `height` grid with the starting snake and food.
    pub fn new(grid_size: (usize, usize)) -> (r: Game)
        requires
            grid_size.0 <= i32::MAX,
            grid_size.1 <= i32::MAX,
        ensures
            r.wf(),
            r.grid == grid_size,
            !r.game_over,
            r.score == 0,
            r.food.position == (10i32, 10i32),
            r.snake.direction == Direction::Right,
            r.body() == seq![(12i32, 10i32)],
    {
        Game {
            grid: grid_size,
            game_over: false,
            snake: Snake::new(),
            food: Food::new(),
            score: 0,
        }
    }

    /// The score reached.
    pub fn get_final_score(&self) -> (r: i32)
        ensures
            r == self.score,
    {
        self.score
    }

    /// The cell the head moves to on the next tick.
    pub fn next_head_cell(&self) -> (r: Position)
        requires
            self.wf(),
        ensures
            r.0 as int == self.next_head().0,
            r.1 as int == self.next_head().1,
    {
        let d = step_delta(self.snake.direction);
        let head = self.snake.positions[0];
        (head.0 + d.0, head.1 + d.1)
    }

    /// Whether `p` is one of the body cells behind the head.
    pub fn body_contains(&self, p: Position) -> (r: bool)
        ensures
            r == exists|i: int| 1 <= i < self.body().len() && self.body()[i] == p,
    {
        let n = self.snake.positions.len();
        let mut i: usize = 1;
        while i < n
            invariant
                n == self.body().len(),
                1 <= i,
                forall|j: int| 1 <= j < i && j < n ==> self.body()[j] != p,
            decreases n - i,
        {
            if same_cell(self.snake.positions[i], p) {
                return true;
            }
            i += 1;
        }
        false
    }
}

/// Advances the game by one tick and tells whether the snake ate.
///
/// When the next head would touch the border or the body behind the head, only
/// the game-over flag is set. Otherwise the next head is put in front of the
/// body; on the food the body grows by that cell and the score by one (the
/// food stays where it was, for the caller to move), elsewhere the tail cell
/// is dropped so that the length stays the same.
pub fn advance(game: &mut Game) -> (ate: bool)
    requires
        old(game).wf(),
        old(game).eats() ==> old(game).score < i32::MAX,
    ensures
        final(game).wf(),
        ate == old(game).eats(),
        final(game).grid == old(game).grid,
        final(game).snake.direction == old(game).snake.direction,
        final(game).food == old(game).food,
        old(game).wall_ahead() ==> final(game).game_over,
        old(game).body_ahead() ==> final(game).game_over,
        old(game).blocked() ==> {
            &&& final(game).game_over
            &&& final(game).body() == old(game).body()
            &&& final(game).score == old(game).score
        },
        !old(game).blocked() ==> {
            &&& final(game).game_over == old(game).game_over
            &&& final(game).head().0 == old(game).next_head().0
            &&& final(game).head().1 == old(game).next_head().1
            &&& is_interior(final(game).width(), final(game).height(), final(game).head().0 as int, final(game).head().1 as int)
        },
        old(game).eats() ==> {
            &&& final(game).body() == seq![final(game).head()] + old(game).body()
            &&& final(game).body().len() == old(game).body().len() + 1
            &&& final(game).score == old(game).score + 1
        },
        !old(game).blocked() && !old(game).eats() ==> {
            &&& final(game).body() == seq![final(game).head()] + old(game).body().drop_last()
            &&& final(game).body().len() == old(game).body().len()
            &&& final(game).score == old(game).score
        },
{
    let next = game.next_head_cell();
    let (width, height) = game.grid;
    if !in_interior(width, height, next) {
        game.game_over = true;
        return false;
    }
    if game.body_contains(next) {
        game.game_over = true;
        return false;
    }
    if same_cell(next, game.food.position) {
        game.snake.positions.insert(0, next);
        game.score = game.score + 1;
        true
    } else {
        game.snake.positions.insert(0, next);
        game.snake.positions.pop();
        false
    }
}

/// Relies on rand::random_range: a uniform draw from the thread-local
/// generator that lies in the half-open range `lo..hi`, which must not be empty.
#[verifier::external_body]
fn random_index(lo: usize, hi: usize) -> (r: usize)
    requires
        lo < hi,
    ensures
        lo <= r < hi,
{
    rand::random_range(lo..hi)
}

/// Advances the game by one tick as [`advance`] does, and when the snake ate,
/// moves the food to a random interior cell (which may lie under the body).
pub fn update_game(game: &mut Game)
    requires
        old(game).wf(),
        old(game).eats() ==> old(game).score < i32::MAX,
    ensures
        final(game).wf(),
        final(game).grid == old(game).grid,
        final(game).snake.direction == old(game).snake.direction,
        old(game).wall_ahead() ==> final(game).game_over,
        old(game).body_ahead() ==> final(game).game_over,
        old(game).blocked() ==> {
            &&& final(game).game_over
            &&& final(game).body() == old(game).body()
            &&& final(game).score == old(game).score
            &&& final(game).food == old(game).food
        },
        !old(game).blocked() ==> {
            &&& final(game).game_over == old(game).game_over
            &&& final(game).head().0 == old(game).next_head().0
            &&& final(game).head().1 == old(game).next_head().1
        },
        old(game).eats() ==> {
            &&& final(game).body() == seq![final(game).head()] + old(game).body()
            &&& final(game).body().len() == old(game).body().len() + 1
            &&& final(game).score == old(game).score + 1
            &&& 1 <= final(game).food.position.0 <= final(game).width() - 2
            &&& 1 <= final(game).food.position.1 <= final(game).height() - 2
        },
        !old(game).blocked() && !old(game).eats() ==> {
            &&& final(game).body() == seq![final(game).head()] + old(game).body().drop_last()
            &&& final(game).body().len() == old(game).body().len()
            &&& final(game).score == old(game).score
            &&& final(game).food == old(game).food
        },
{
    let ate = advance(game);
    if ate {
        let (width, height) = game.grid;
        let x = random_index(1, width - 1);
        let y = random_index(1, height - 1);
        game.food.position = (x as i32, y as i32);
    }
}

/// A key press, as the game sees it.
#[derive(Clone, Copy, Debug, PartialEq, Eq, Structural)]
pub enum Key {
    Up,
    Down,
    Left,
    Right,
    Quit,
    Other,
}

/// The heading that an arrow key asks for.
pub open spec fn key_direction(k: Key) -> Option<Direction> {
    match k {
        Key::Up => Some(Direction::Up),
        Key::Down => Some(Direction::Down),
        Key::Left => Some(Direction::Left),
        Key::Right => Some(Direction::Right),
        _ => None,
    }
}

/// Applies a key press: an arrow turns the snake unless it asks for the
/// opposite of the current heading, `Quit` ends the game, any other key is
/// ignored.
pub fn handle_key(game: &mut Game, key: Key)
    ensures
        final(game).grid == old(game).grid,
        final(game).body() == old(game).body(),
        final(game).food == old(game).food,
        final(game).score == old(game).score,
        key == Key::Quit ==> final(game).game_over,
        key != Key::Quit ==> final(game).game_over == old(game).game_over,
        key_direction(key) is None ==> final(game).snake.direction == old(game).snake.direction,
        key_direction(key) matches Some(d) ==> {
            &&& d == opposite(old(game).snake.direction) ==> final(game).snake.direction == old(game).snake.direction
            &&& d != opposite(old(game).snake.direction) ==> final(game).snake.direction == d
        },
{
    let requested = match key {
        Key::Up => Direction::Up,
        Key::Down => Direction::Down,
        Key::Left => Direction::Left,
        Key::Right => Direction::Right,
        Key::Quit => {
            game.game_over = true;
            return;
        },
        Key::Other => {
            return;
        },
    };
    game.snake.direction = change_direction(game.snake.direction, requested);
}

} // verus!
