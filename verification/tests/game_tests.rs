use snake_game::color::Color;
use snake_game::entity::Entity;
use snake_game::game::{Game, GameKey};
use snake_game::grid::Position;
use snake_game::snake::{Direction, Snake};

fn white() -> Color {
    Color { red: 1, green: 1, blue: 1, alpha: 1 }
}

fn black() -> Color {
    Color { red: 0, green: 0, blue: 0, alpha: 1 }
}

fn red() -> Color {
    Color { red: 1, green: 0, blue: 0, alpha: 1 }
}

fn green() -> Color {
    Color { red: 0, green: 1, blue: 0, alpha: 1 }
}

fn blue() -> Color {
    Color { red: 0, green: 0, blue: 1, alpha: 1 }
}

fn snake_at(body: Vec<(i32, i32)>, direction: Direction) -> Snake {
    let body = body.into_iter().map(|(x, y)| Position { x, y }).collect();
    Snake { body, direction, food_is_eaten: false, color: red() }
}

fn body_of(g: &Game) -> Vec<(i32, i32)> {
    g.snake.body.iter().map(|p| (p.x, p.y)).collect()
}

#[test]
fn new_game_starts_with_score_zero_and_seven_entities() {
    let g = Game::new();
    assert_eq!(g.score, 0);
    assert!(!g.epileptic_mode_on);
    assert_eq!(g.background_color, green());
    assert_eq!(body_of(&g), vec![(0, 0), (0, 1)]);
    assert_eq!(g.snake.direction, Direction::Right);
    assert_eq!(g.snake.color, red());
    assert_eq!(g.food_and_barriers.len(), 7);
    assert!(g.food_and_barriers[0].is_food);
    assert_eq!(g.food_and_barriers[0].color, white());
    for b in &g.food_and_barriers[1..] {
        assert!(!b.is_food);
        assert_eq!(b.color, black());
    }
    for e in &g.food_and_barriers {
        assert!(0 <= e.pos.x && e.pos.x <= 34);
        assert!(0 <= e.pos.y && e.pos.y <= 19);
    }
}

#[test]
fn eating_food_scores_and_respawns_every_entity() {
    let mut g = Game::new();
    g.snake = snake_at(vec![(5, 5), (5, 6)], Direction::Right);
    g.food_and_barriers = vec![
        Entity::new_food(Position { x: 6, y: 5 }),
        Entity::new_barrier(Position { x: 10, y: 10 }),
        Entity::new_barrier(Position { x: 12, y: 3 }),
    ];
    let alive = g.update();
    assert!(alive);
    assert_eq!(g.score, 1);
    assert_eq!(body_of(&g), vec![(6, 5), (5, 5), (5, 6)]);
    assert!(!g.snake.food_is_eaten);
    // Every entity got its respawn call: the food moved somewhere on the
    // grid, the barriers' respawn is a no-op.
    let food = &g.food_and_barriers[0];
    assert!(food.is_food);
    assert!(0 <= food.pos.x && food.pos.x <= 34);
    assert!(0 <= food.pos.y && food.pos.y <= 19);
    assert_eq!(g.food_and_barriers[1].pos, Position { x: 10, y: 10 });
    assert_eq!(g.food_and_barriers[2].pos, Position { x: 12, y: 3 });
}

#[test]
fn hitting_a_barrier_ends_the_game_without_scoring() {
    let mut g = Game::new();
    g.snake = snake_at(vec![(5, 5), (5, 6)], Direction::Right);
    g.food_and_barriers = vec![Entity::new_barrier(Position { x: 6, y: 5 })];
    let alive = g.update();
    assert!(!alive);
    assert_eq!(g.score, 0);
    assert_eq!(body_of(&g), vec![(5, 5), (5, 6)]);
    assert_eq!(g.food_and_barriers[0].pos, Position { x: 6, y: 5 });
}

#[test]
fn leaving_the_grid_ends_the_game() {
    let mut g = Game::new();
    g.snake = snake_at(vec![(34, 5), (33, 5)], Direction::Right);
    g.food_and_barriers = Vec::new();
    let alive = g.update();
    assert!(!alive);
    assert_eq!(g.score, 0);
    assert_eq!(body_of(&g), vec![(34, 5), (33, 5)]);
}

#[test]
fn a_plain_move_keeps_the_score_and_the_entities() {
    let mut g = Game::new();
    g.snake = snake_at(vec![(5, 5), (5, 6)], Direction::Right);
    g.food_and_barriers = vec![Entity::new_food(Position { x: 20, y: 10 })];
    let alive = g.update();
    assert!(alive);
    assert_eq!(g.score, 0);
    assert_eq!(body_of(&g), vec![(6, 5), (5, 5)]);
    assert_eq!(g.food_and_barriers[0].pos, Position { x: 20, y: 10 });
}

#[test]
fn directional_keys_turn_the_snake() {
    let mut g = Game::new();
    g.snake.direction = Direction::Right;
    g.pressed(GameKey::Up);
    assert_eq!(g.snake.direction, Direction::Up);
    g.pressed(GameKey::Left);
    assert_eq!(g.snake.direction, Direction::Left);
    g.pressed(GameKey::Down);
    assert_eq!(g.snake.direction, Direction::Down);
    g.pressed(GameKey::Right);
    assert_eq!(g.snake.direction, Direction::Right);
}

#[test]
fn a_reverse_key_press_is_ignored() {
    let mut g = Game::new();

    g.snake.direction = Direction::Right;
    g.pressed(GameKey::Left);
    assert_eq!(g.snake.direction, Direction::Right);

    g.snake.direction = Direction::Left;
    g.pressed(GameKey::Right);
    assert_eq!(g.snake.direction, Direction::Left);

    g.snake.direction = Direction::Up;
    g.pressed(GameKey::Down);
    assert_eq!(g.snake.direction, Direction::Up);

    g.snake.direction = Direction::Down;
    g.pressed(GameKey::Up);
    assert_eq!(g.snake.direction, Direction::Down);
}

#[test]
fn unrecognized_keys_change_nothing() {
    let mut g = Game::new();
    let dir = g.snake.direction;
    let score = g.score;
    g.pressed(GameKey::Other);
    assert_eq!(g.snake.direction, dir);
    assert_eq!(g.score, score);
    assert!(!g.epileptic_mode_on);
}

#[test]
fn toggle_key_flips_the_flash_flag_and_parity_restores_it() {
    let mut g = Game::new();
    assert!(!g.epileptic_mode_on);
    g.pressed(GameKey::ToggleFlash);
    assert!(g.epileptic_mode_on);
    g.pressed(GameKey::ToggleFlash);
    assert!(!g.epileptic_mode_on);
    for _ in 0..7 {
        g.pressed(GameKey::ToggleFlash);
    }
    assert!(g.epileptic_mode_on);
}

#[test]
fn flash_mode_cycles_colors_and_two_ticks_restore_them() {
    let mut g = Game::new();
    g.snake = snake_at(vec![(0, 0), (0, 1)], Direction::Right);
    g.food_and_barriers = vec![
        Entity::new_food(Position { x: 20, y: 10 }),
        Entity::new_barrier(Position { x: 25, y: 15 }),
    ];
    g.epileptic_mode_on = true;

    assert!(g.update());
    assert_eq!(g.background_color, blue());
    assert_eq!(g.snake.color, green());
    assert_eq!(g.food_and_barriers[0].color, black());
    assert_eq!(g.food_and_barriers[1].color, white());

    assert!(g.update());
    assert_eq!(g.background_color, green());
    assert_eq!(g.snake.color, red());
    assert_eq!(g.food_and_barriers[0].color, white());
    assert_eq!(g.food_and_barriers[1].color, black());
}

#[test]
fn with_flash_mode_off_colors_stay_put() {
    let mut g = Game::new();
    g.snake = snake_at(vec![(0, 0), (0, 1)], Direction::Right);
    g.food_and_barriers = vec![Entity::new_food(Position { x: 20, y: 10 })];
    assert!(g.update());
    assert_eq!(g.background_color, green());
    assert_eq!(g.snake.color, red());
    assert_eq!(g.food_and_barriers[0].color, white());
}
