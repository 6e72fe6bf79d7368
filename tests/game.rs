use snake_game::game::{advance, handle_key, update_game, Food, Game, Key, Snake};
use snake_game::grid::{change_direction, in_interior, same_cell, step_delta, Direction};
use snake_game::render::{render_grid, render_row};

fn game_with(grid: (usize, usize), body: Vec<(i32, i32)>, direction: Direction) -> Game {
    let mut game = Game::new(grid);
    game.snake.positions = body;
    game.snake.direction = direction;
    game
}

#[test]
fn first_tick_moves_right_without_input() {
    let mut game = Game::new((20, 20));
    update_game(&mut game);
    assert_eq!(game.snake.positions, vec![(13, 10)]);
    assert_eq!(game.score, 0);
    assert!(!game.game_over);
    assert_eq!(game.food.position, (10, 10));
}

#[test]
fn eating_food_grows_and_scores() {
    let mut game = game_with((20, 20), vec![(11, 10)], Direction::Left);
    update_game(&mut game);
    assert_eq!(game.snake.positions, vec![(10, 10), (11, 10)]);
    assert_eq!(game.score, 1);
    assert!(!game.game_over);
    let (x, y) = game.food.position;
    assert!(1 <= x && x <= 18);
    assert!(1 <= y && y <= 18);
}

#[test]
fn advance_leaves_food_for_caller_after_eating() {
    let mut game = game_with((20, 20), vec![(11, 10)], Direction::Left);
    assert!(advance(&mut game));
    assert_eq!(game.food.position, (10, 10));
    assert_eq!(game.score, 1);
}

#[test]
fn left_wall_on_smallest_grid_ends_game() {
    let mut game = game_with((5, 5), vec![(1, 2)], Direction::Left);
    update_game(&mut game);
    assert!(game.game_over);
    assert_eq!(game.score, 0);
    assert_eq!(game.snake.positions, vec![(1, 2)]);
}

#[test]
fn every_wall_ends_game() {
    let cases = [
        ((3, 1), Direction::Right),
        ((1, 1), Direction::Up),
        ((1, 3), Direction::Down),
        ((1, 1), Direction::Left),
    ];
    for (head, direction) in cases {
        let mut game = game_with((5, 5), vec![head], direction);
        update_game(&mut game);
        assert!(game.game_over);
        assert_eq!(game.snake.positions, vec![head]);
        assert_eq!(game.snake.direction, direction);
    }
}

#[test]
fn snake_off_the_grid_ends_game() {
    let mut game = Game::new((5, 5));
    update_game(&mut game);
    assert!(game.game_over);
    assert_eq!(game.snake.positions, vec![(12, 10)]);
}

#[test]
fn moving_into_neck_ends_game() {
    let mut game = game_with((20, 20), vec![(5, 5), (6, 5)], Direction::Right);
    update_game(&mut game);
    assert!(game.game_over);
    assert_eq!(game.snake.positions, vec![(5, 5), (6, 5)]);
}

#[test]
fn moving_into_body_loop_ends_game() {
    let body = vec![(5, 5), (5, 6), (6, 6), (6, 5), (6, 4)];
    let mut game = game_with((20, 20), body.clone(), Direction::Right);
    update_game(&mut game);
    assert!(game.game_over);
    assert_eq!(game.snake.positions, body);
    assert_eq!(game.score, 0);
}

#[test]
fn moving_onto_old_tail_is_a_collision() {
    let body = vec![(5, 5), (5, 6), (6, 6), (6, 5)];
    let mut game = game_with((20, 20), body, Direction::Right);
    update_game(&mut game);
    assert!(game.game_over);
}

#[test]
fn plain_move_keeps_length() {
    let mut game = game_with((20, 20), vec![(5, 5), (5, 6), (5, 7)], Direction::Up);
    update_game(&mut game);
    assert!(!game.game_over);
    assert_eq!(game.snake.positions, vec![(5, 4), (5, 5), (5, 6)]);
    assert_eq!(game.score, 0);
    for _ in 0..3 {
        update_game(&mut game);
        assert_eq!(game.snake.positions.len(), 3);
    }
    assert_eq!(game.snake.positions[0], (5, 1));
    assert!(!game.game_over);
}

#[test]
fn head_moves_by_unit_step() {
    for direction in [Direction::Up, Direction::Down, Direction::Left, Direction::Right] {
        let mut game = game_with((20, 20), vec![(5, 7)], direction);
        update_game(&mut game);
        let (dx, dy) = step_delta(direction);
        assert_eq!(game.snake.positions[0], (5 + dx, 7 + dy));
    }
}

#[test]
fn step_deltas() {
    assert_eq!(step_delta(Direction::Up), (0, -1));
    assert_eq!(step_delta(Direction::Down), (0, 1));
    assert_eq!(step_delta(Direction::Left), (-1, 0));
    assert_eq!(step_delta(Direction::Right), (1, 0));
}

#[test]
fn respawned_food_stays_inside_border() {
    for _ in 0..200 {
        let mut game = game_with((3, 3), vec![(2, 1)], Direction::Left);
        game.food.position = (1, 1);
        update_game(&mut game);
        assert_eq!(game.score, 1);
        assert_eq!(game.food.position, (1, 1));
    }
    for _ in 0..200 {
        let mut game = game_with((7, 4), vec![(2, 1)], Direction::Left);
        game.food.position = (1, 1);
        update_game(&mut game);
        let (x, y) = game.food.position;
        assert!(1 <= x && x <= 5);
        assert!(1 <= y && y <= 2);
    }
}

#[test]
fn reversal_is_refused() {
    let all = [Direction::Up, Direction::Down, Direction::Left, Direction::Right];
    let opposite = [Direction::Down, Direction::Up, Direction::Right, Direction::Left];
    for (i, current) in all.iter().enumerate() {
        for requested in all {
            let r = change_direction(*current, requested);
            if requested == opposite[i] {
                assert_eq!(r, *current);
            } else {
                assert_eq!(r, requested);
            }
        }
    }
}

#[test]
fn keys_steer_and_quit() {
    let mut game = game_with((20, 20), vec![(5, 5)], Direction::Down);
    handle_key(&mut game, Key::Up);
    assert_eq!(game.snake.direction, Direction::Down);
    handle_key(&mut game, Key::Left);
    assert_eq!(game.snake.direction, Direction::Left);
    handle_key(&mut game, Key::Left);
    assert_eq!(game.snake.direction, Direction::Left);
    handle_key(&mut game, Key::Other);
    assert_eq!(game.snake.direction, Direction::Left);
    assert!(!game.game_over);
    handle_key(&mut game, Key::Quit);
    assert!(game.game_over);
    assert_eq!(game.snake.direction, Direction::Left);
    assert_eq!(game.snake.positions, vec![(5, 5)]);
}

#[test]
fn starting_state() {
    let game = Game::new((20, 30));
    assert_eq!(game.grid, (20, 30));
    assert!(!game.game_over);
    assert_eq!(game.get_final_score(), 0);
    assert_eq!(Food::new().position, (10, 10));
    let snake = Snake::new();
    assert_eq!(snake.direction, Direction::Right);
    assert_eq!(snake.positions, vec![(12, 10)]);
}

#[test]
fn final_score_reports_score() {
    let mut game = game_with((20, 20), vec![(11, 10)], Direction::Left);
    update_game(&mut game);
    assert_eq!(game.get_final_score(), 1);
}

#[test]
fn interior_and_cells() {
    assert!(in_interior(5, 5, (1, 1)));
    assert!(in_interior(5, 5, (3, 3)));
    assert!(!in_interior(5, 5, (0, 2)));
    assert!(!in_interior(5, 5, (4, 2)));
    assert!(!in_interior(5, 5, (2, -1)));
    assert!(!in_interior(2, 2, (1, 1)));
    assert!(same_cell((3, 4), (3, 4)));
    assert!(!same_cell((3, 4), (4, 3)));
}

fn rows_as_text(rows: &[Vec<char>]) -> Vec<String> {
    rows.iter().map(|r| r.iter().collect()).collect()
}

#[test]
fn frame_shows_border_food_and_snake() {
    let mut game = game_with((6, 5), vec![(2, 2), (3, 2)], Direction::Left);
    game.food.position = (4, 3);
    let rows = render_grid(&game);
    assert_eq!(
        rows_as_text(&rows),
        vec!["//////", "/    /", "/ ## /", "/   */", "//////"]
    );
}

#[test]
fn snake_hides_food_and_border_is_never_overdrawn() {
    let mut game = game_with((5, 4), vec![(2, 1), (0, 1), (7, 7)], Direction::Left);
    game.food.position = (2, 1);
    let rows = render_grid(&game);
    assert_eq!(rows_as_text(&rows), vec!["/////", "/ # /", "/   /", "/////"]);
    game.food.position = (4, 2);
    game.snake.positions = vec![(1, 2)];
    let rows = render_grid(&game);
    assert_eq!(rows_as_text(&rows), vec!["/////", "/   /", "/#  /", "/////"]);
}

#[test]
fn frame_of_starting_game() {
    let game = Game::new((20, 20));
    let rows = render_grid(&game);
    assert_eq!(rows.len(), 20);
    assert!(rows.iter().all(|r| r.len() == 20));
    assert_eq!(rows[10][10], '*');
    assert_eq!(rows[10][12], '#');
    assert_eq!(rows[0][5], '/');
    assert_eq!(rows[19][5], '/');
    assert_eq!(rows[5][0], '/');
    assert_eq!(rows[5][19], '/');
    assert_eq!(rows[5][5], ' ');
    assert_eq!(render_row(&game, 10), rows[10]);
}

#[test]
fn frame_of_empty_grid() {
    let game = Game::new((0, 0));
    assert!(render_grid(&game).is_empty());
    let game = Game::new((1, 2));
    assert_eq!(rows_as_text(&render_grid(&game)), vec!["/", "/"]);
}
