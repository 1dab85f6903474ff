use snake_game::game::{
    Game, Input, Phase, INITIAL_TICK_MICROS, MIN_TICK_MICROS, TICK_STEP_MICROS,
};
use snake_game::grid::{Cell, Direction, HEIGHT, WIDTH};
use snake_game::snake::Snake;
use std::collections::VecDeque;

fn body_of(g: &Game) -> Vec<(u32, u32)> {
    g.snake.body.iter().map(|c| (c.x, c.y)).collect()
}

fn running() -> Game {
    let mut g = Game::new();
    g.handle_input(Input::Confirm);
    g
}

/// Puts the food under the head, so that the next move eats it.
fn feed(g: &mut Game) {
    g.food.position = g.snake.head();
}

fn far_food(g: &mut Game) {
    let h = g.snake.head();
    g.food.position = Cell { x: (h.x + 10) % WIDTH, y: (h.y + 10) % HEIGHT };
}

#[test]
fn new_game_waits_for_confirmation() {
    let g = Game::new();
    assert!(g.phase() == Phase::NotStarted);
    assert!(!g.started && !g.over);
    assert_eq!(body_of(&g), vec![(WIDTH / 2, HEIGHT / 2)]);
    assert!(g.snake.dir == Direction::Right);
    assert_eq!(g.food_eaten, 0);
    assert_eq!(g.tick_interval, INITIAL_TICK_MICROS);
    assert_eq!(g.elapsed_since_tick, 0);
    assert!(g.food.position.x < WIDTH && g.food.position.y < HEIGHT);
}

#[test]
fn speed_constants() {
    assert_eq!(INITIAL_TICK_MICROS, 200_000);
    assert_eq!(TICK_STEP_MICROS, 20_000);
    assert_eq!(MIN_TICK_MICROS, 50_000);
}

#[test]
fn turns_before_start_are_ignored() {
    let mut g = Game::new();
    g.handle_input(Input::Turn(Direction::Up));
    assert!(g.phase() == Phase::NotStarted);
    assert!(g.snake.dir == Direction::Right);
    g.handle_input(Input::Confirm);
    assert!(g.phase() == Phase::Running);
}

#[test]
fn time_does_not_pass_before_start() {
    let mut g = Game::new();
    g.update(1_000_000);
    assert_eq!(g.elapsed_since_tick, 0);
    assert_eq!(body_of(&g), vec![(10, 10)]);
}

#[test]
fn running_turns_follow_the_reversal_rule() {
    let mut g = running();
    g.handle_input(Input::Turn(Direction::Left));
    assert!(g.snake.dir == Direction::Right);
    g.handle_input(Input::Turn(Direction::Down));
    assert!(g.snake.dir == Direction::Down);
    g.handle_input(Input::Turn(Direction::Up));
    assert!(g.snake.dir == Direction::Down);
    g.handle_input(Input::Confirm);
    assert!(g.phase() == Phase::Running);
    assert!(g.snake.dir == Direction::Down);
}

#[test]
fn tick_without_food_moves_the_snake() {
    let mut g = running();
    far_food(&mut g);
    let food = g.food.position;
    g.tick();
    assert_eq!(body_of(&g), vec![(11, 10)]);
    assert_eq!(g.food.position, food);
    assert_eq!(g.food_eaten, 0);
    assert!(!g.over);
}

#[test]
fn eating_grows_counts_and_respawns() {
    let mut g = running();
    feed(&mut g);
    g.tick();
    assert_eq!(body_of(&g), vec![(11, 10), (10, 10)]);
    assert_eq!(g.food_eaten, 1);
    assert!(g.food.position.x < WIDTH && g.food.position.y < HEIGHT);
    assert_eq!(g.tick_interval, INITIAL_TICK_MICROS);
    assert!(!g.over);
}

#[test]
fn every_meal_respawns_the_food_on_the_grid() {
    for _ in 0..50 {
        let mut g = running();
        feed(&mut g);
        g.tick();
        assert_eq!(g.food_eaten, 1);
        assert!(g.food.position.x < WIDTH && g.food.position.y < HEIGHT);
    }
}

#[test]
fn speed_rises_every_fourth_meal() {
    let mut g = running();
    g.snake = Snake::new(0, 0);
    let mut intervals = Vec::new();
    for _ in 0..19 {
        feed(&mut g);
        g.tick();
        assert!(!g.over);
        intervals.push(g.tick_interval);
    }
    assert_eq!(g.food_eaten, 19);
    assert_eq!(g.snake.body.len(), 20);
    let expected: Vec<u64> = (1..=19u64)
        .map(|n| 200_000 - 20_000 * (n / 4))
        .collect();
    assert_eq!(intervals, expected);
}

#[test]
fn speed_stops_at_the_floor() {
    let mut g = running();
    g.food_eaten = 31;
    g.tick_interval = 60_000;
    feed(&mut g);
    g.tick();
    assert_eq!(g.food_eaten, 32);
    assert_eq!(g.tick_interval, MIN_TICK_MICROS);
    g.food_eaten = 35;
    feed(&mut g);
    g.tick();
    assert_eq!(g.food_eaten, 36);
    assert_eq!(g.tick_interval, MIN_TICK_MICROS);
}

#[test]
fn single_segment_at_right_edge_stays_in_place() {
    let mut g = running();
    g.snake = Snake::new(19, 10);
    far_food(&mut g);
    g.tick();
    assert_eq!(body_of(&g), vec![(19, 10)]);
    assert!(!g.over);
}

#[test]
fn clamped_move_onto_the_neck_ends_the_game() {
    let mut g = running();
    g.snake = Snake::new(18, 10);
    feed(&mut g);
    g.tick();
    assert_eq!(body_of(&g), vec![(19, 10), (18, 10)]);
    assert!(!g.over);
    far_food(&mut g);
    g.tick();
    assert_eq!(body_of(&g), vec![(19, 10), (19, 10)]);
    assert!(g.over);
    assert!(g.phase() == Phase::Over);
}

#[test]
fn biting_the_body_ends_the_game() {
    let mut g = running();
    let cells = [(5, 5), (5, 6), (4, 6), (4, 5), (4, 4)];
    g.snake = Snake {
        body: cells.iter().map(|&(x, y)| Cell { x, y }).collect::<VecDeque<Cell>>(),
        dir: Direction::Left,
    };
    g.food_eaten = 4;
    g.tick_interval = 180_000;
    far_food(&mut g);
    g.tick();
    assert_eq!(body_of(&g), vec![(4, 5), (5, 5), (5, 6), (4, 6), (4, 5)]);
    assert!(g.over);
}

#[test]
fn update_gathers_time_and_moves_on_the_interval() {
    let mut g = running();
    far_food(&mut g);
    g.update(100_000);
    assert_eq!(g.elapsed_since_tick, 100_000);
    assert_eq!(body_of(&g), vec![(10, 10)]);
    g.update(100_000);
    assert_eq!(g.elapsed_since_tick, 200_000);
    assert_eq!(body_of(&g), vec![(10, 10)]);
    g.update(16_000);
    assert_eq!(body_of(&g), vec![(11, 10)]);
    assert_eq!(g.elapsed_since_tick, 16_000);
}

#[test]
fn update_saturates_the_time_gathered() {
    let mut g = running();
    far_food(&mut g);
    g.update(u64::MAX);
    assert_eq!(g.elapsed_since_tick, u64::MAX);
    g.update(5);
    assert_eq!(g.elapsed_since_tick, 5);
    assert_eq!(body_of(&g), vec![(11, 10)]);
}

#[test]
fn nothing_moves_once_over() {
    let mut g = running();
    g.over = true;
    g.update(1_000_000);
    assert_eq!(body_of(&g), vec![(10, 10)]);
    g.handle_input(Input::Turn(Direction::Up));
    assert!(g.snake.dir == Direction::Right);
    assert!(g.phase() == Phase::Over);
}

#[test]
fn restart_from_over_resets_the_session() {
    let mut g = running();
    g.snake = Snake::new(0, 0);
    for _ in 0..8 {
        feed(&mut g);
        g.tick();
    }
    g.handle_input(Input::Turn(Direction::Down));
    assert_eq!(g.food_eaten, 8);
    assert_eq!(g.tick_interval, 160_000);
    g.over = true;
    g.handle_input(Input::Confirm);
    assert!(g.phase() == Phase::Running);
    assert_eq!(g.food_eaten, 0);
    assert_eq!(g.tick_interval, INITIAL_TICK_MICROS);
    assert_eq!(body_of(&g), vec![(WIDTH / 2, HEIGHT / 2)]);
    assert!(g.snake.dir == Direction::Right);
    assert!(g.food.position.x < WIDTH && g.food.position.y < HEIGHT);
}
