use snake_core::direction::Direction;
use snake_core::game::{Config, Game, GameKey, PowerUp, PowerUpType};

/// The standard rules with the random power-up spawning switched off, so
/// that a test drives a fully deterministic game.
fn quiet_config() -> Config {
    let mut c = Config::standard();
    c.powerup_spawn_chance = 0;
    c
}

fn quiet_game() -> Game {
    Game::with_config(10, 10, quiet_config())
}

#[test]
fn new_game_initial_state() {
    let g = Game::new(27, 22);
    assert_eq!(g.snake.head_position(), (4, 2));
    assert_eq!(g.snake.body.len(), 3);
    assert!(g.food_exists);
    assert_eq!((g.food_x, g.food_y), (5, 3));
    assert_eq!(g.score, 0);
    assert_eq!(g.high_score, 0);
    assert!(!g.is_game_over);
    assert!(g.powerups.is_empty());
    assert!(!g.is_speed_boosted);
    assert!(!g.is_shielded);
    assert_eq!(g.combo_count, 0);
    assert_eq!(g.config.base_move_period, 200);
    assert_eq!(g.config.boosted_move_period, 100);
    assert_eq!(g.config.speed_boost_duration, 5000);
    assert_eq!(g.config.shield_duration, 10000);
    assert_eq!(g.config.powerup_max_age, 10000);
    assert_eq!(g.config.combo_window, 3000);
    assert_eq!(g.config.food_score, 10);
    assert_eq!(g.config.powerup_score, 50);
}

#[test]
fn eating_scenario_one_update_step() {
    // grid 10 x 10, snake initialized at (2, 2) heading Right, food placed
    // directly at its next head cell; one update past the base period
    // must move the snake, grow it to 4 cells, score 10, and consume the
    // food.
    let mut g = quiet_game();
    let (nx, ny) = g.snake.next_head_position(None);
    g.place_food(nx, ny);
    g.update(250);
    assert_eq!(g.snake.head_position(), (5, 2));
    assert_eq!(g.snake.body.len(), 4);
    assert_eq!(g.score, 10);
    assert!(!g.food_exists);
    assert_eq!(g.combo_count, 1);
    assert_eq!(g.combo_timer, 3000);
    assert!(!g.is_game_over);
}

#[test]
fn combo_bonus_awarded_past_first_catch() {
    let mut g = quiet_game();
    let (nx, ny) = g.snake.next_head_position(None);
    g.place_food(nx, ny);
    g.update(250);
    assert_eq!(g.score, 10);
    assert_eq!(g.combo_count, 1);
    // a second catch inside the combo window pays 10 + 2 * 2
    let (nx2, ny2) = g.snake.next_head_position(None);
    g.place_food(nx2, ny2);
    g.update(250);
    assert_eq!(g.combo_count, 2);
    assert_eq!(g.score, 10 + 10 + 4);
}

#[test]
fn combo_resets_when_window_runs_out() {
    let mut g = quiet_game();
    g.combo_count = 3;
    g.combo_timer = 100;
    // 150 ms pass: the window runs out, and no movement step fires since
    // 150 is below the 200 ms base period
    g.update(150);
    assert_eq!(g.combo_count, 0);
    assert_eq!(g.combo_timer, 0);
    assert_eq!(g.snake.head_position(), (4, 2));
}

#[test]
fn no_movement_before_period_elapses() {
    let mut g = quiet_game();
    g.update(200);
    // 200 is not strictly above the 200 ms period
    assert_eq!(g.snake.head_position(), (4, 2));
    g.update(1);
    assert_eq!(g.snake.head_position(), (5, 2));
}

#[test]
fn speed_boost_shortens_the_period() {
    let mut g = quiet_game();
    g.is_speed_boosted = true;
    g.speed_boost_timer = 5000;
    g.update(150);
    // 150 is above the boosted 100 ms period
    assert_eq!(g.snake.head_position(), (5, 2));
}

#[test]
fn shield_survives_wall_hit() {
    let mut g = quiet_game();
    g.is_shielded = true;
    g.shield_timer = 10000;
    g.key_pressed(GameKey::Up);
    assert_eq!(g.snake.head_position(), (4, 1));
    assert!(!g.is_game_over);
    // the next step up crosses the border; the shield absorbs it
    g.key_pressed(GameKey::Up);
    assert_eq!(g.snake.head_position(), (4, 0));
    assert!(!g.is_game_over);
}

/// Grows the snake to five cells by two catches, then steers it into a
/// hook so that the next step up would bite its own body at (5, 2).
fn steer_into_own_body(g: &mut Game) {
    g.place_food(5, 2);
    g.update(250);
    g.place_food(6, 2);
    g.update(250);
    assert_eq!(g.snake.body.len(), 5);
    g.key_pressed(GameKey::Down);
    g.key_pressed(GameKey::Left);
    g.key_pressed(GameKey::Up);
}

#[test]
fn shield_survives_self_collision() {
    let mut g = quiet_game();
    g.is_shielded = true;
    g.shield_timer = 60000;
    steer_into_own_body(&mut g);
    assert!(!g.is_game_over);
    assert_eq!(g.snake.head_position(), (5, 2));
}

#[test]
fn wall_hit_without_shield_ends_the_game() {
    let mut g = quiet_game();
    g.score = 5;
    g.key_pressed(GameKey::Up);
    assert!(!g.is_game_over);
    g.key_pressed(GameKey::Up);
    assert!(g.is_game_over);
    // the snake did not move into the wall
    assert_eq!(g.snake.head_position(), (4, 1));
    // the high score is settled on death
    assert_eq!(g.high_score, 5);
    // effects and shake reset on death
    assert!(!g.is_shielded);
    assert!(!g.is_speed_boosted);
    assert_eq!(g.screen_shake_timer, 0);
}

#[test]
fn self_collision_without_shield_ends_the_game() {
    let mut g = quiet_game();
    steer_into_own_body(&mut g);
    assert!(g.is_game_over);
    // the fatal step did not commit: the head stays where the hook ended
    assert_eq!(g.snake.head_position(), (5, 3));
}

#[test]
fn high_score_updates_only_on_improvement() {
    let mut g = quiet_game();
    g.score = 5;
    g.high_score = 20;
    g.key_pressed(GameKey::Up);
    g.key_pressed(GameKey::Up);
    assert!(g.is_game_over);
    assert_eq!(g.high_score, 20);
}

#[test]
fn game_over_freezes_the_board() {
    let mut g = quiet_game();
    g.key_pressed(GameKey::Up);
    g.key_pressed(GameKey::Up);
    assert!(g.is_game_over);
    let head = g.snake.head_position();
    let score = g.score;
    g.update(500);
    g.key_pressed(GameKey::Left);
    assert!(g.is_game_over);
    assert_eq!(g.snake.head_position(), head);
    assert_eq!(g.score, score);
    assert!(g.game_over_animation >= 500);
}

#[test]
fn restart_rebuilds_the_round_and_keeps_the_high_score() {
    let mut g = quiet_game();
    g.score = 7;
    g.key_pressed(GameKey::Up);
    g.key_pressed(GameKey::Up);
    assert!(g.is_game_over);
    assert_eq!(g.high_score, 7);
    g.key_pressed(GameKey::Restart);
    assert!(!g.is_game_over);
    assert_eq!(g.snake.head_position(), (4, 2));
    assert_eq!(g.snake.body.len(), 3);
    assert!(g.food_exists);
    assert_eq!((g.food_x, g.food_y), (5, 3));
    assert_eq!(g.score, 0);
    assert!(g.powerups.is_empty());
    assert_eq!(g.waiting_time, 0);
    assert_eq!(g.combo_count, 0);
    assert_eq!(g.combo_timer, 0);
    assert_eq!(g.game_over_animation, 0);
    assert_eq!(g.high_score, 7);
}

#[test]
fn restart_key_only_works_while_game_over() {
    let mut g = quiet_game();
    g.score = 3;
    g.key_pressed(GameKey::Restart);
    // while playing, the restart key is ignored
    assert_eq!(g.score, 3);
    assert_eq!(g.snake.head_position(), (4, 2));
}

#[test]
fn reversal_key_is_rejected() {
    let mut g = quiet_game();
    // heading Right: Left is the exact opposite and must change nothing
    g.key_pressed(GameKey::Left);
    assert_eq!(g.snake.head_position(), (4, 2));
    assert!(g.snake.head_direction() == Direction::Right);
    assert_eq!(g.waiting_time, 0);
}

#[test]
fn direction_key_causes_an_immediate_step() {
    let mut g = quiet_game();
    g.key_pressed(GameKey::Down);
    assert_eq!(g.snake.head_position(), (4, 3));
    assert!(g.snake.head_direction() == Direction::Down);
}

#[test]
fn other_key_is_ignored() {
    let mut g = quiet_game();
    g.key_pressed(GameKey::Other);
    assert_eq!(g.snake.head_position(), (4, 2));
}

#[test]
fn powerup_collection_scores_and_activates_speed() {
    let mut g = quiet_game();
    g.powerups.push(PowerUp { x: 5, y: 2, powerup_type: PowerUpType::Speed, timer: 0 });
    g.update(250);
    assert_eq!(g.snake.head_position(), (5, 2));
    assert_eq!(g.score, 50);
    assert!(g.powerups.is_empty());
    assert!(g.is_speed_boosted);
    assert_eq!(g.speed_boost_timer, 5000);
    assert_eq!(g.screen_shake_timer, 200);
    assert_eq!(g.screen_shake_intensity, 4000);
}

#[test]
fn powerup_collection_activates_shield() {
    let mut g = quiet_game();
    g.powerups.push(PowerUp { x: 5, y: 2, powerup_type: PowerUpType::Shield, timer: 0 });
    g.update(250);
    assert_eq!(g.score, 50);
    assert!(g.is_shielded);
    assert_eq!(g.shield_timer, 10000);
}

#[test]
fn food_and_powerup_on_the_same_cell_both_fire() {
    let mut g = quiet_game();
    g.place_food(5, 2);
    g.powerups.push(PowerUp { x: 5, y: 2, powerup_type: PowerUpType::Shield, timer: 0 });
    g.update(250);
    assert_eq!(g.snake.body.len(), 4);
    assert!(!g.food_exists);
    assert_eq!(g.score, 60);
    assert!(g.is_shielded);
}

#[test]
fn powerups_despawn_at_max_age() {
    let mut g = quiet_game();
    g.powerups.push(PowerUp { x: 8, y: 8, powerup_type: PowerUpType::Speed, timer: 9000 });
    g.powerups.push(PowerUp { x: 7, y: 8, powerup_type: PowerUpType::Shield, timer: 100 });
    g.update(1000);
    // the first is 10000 ms old and despawns; the second stays, aged
    assert_eq!(g.powerups.len(), 1);
    assert_eq!(g.powerups[0].x, 7);
    assert_eq!(g.powerups[0].timer, 1100);
}

#[test]
fn effects_expire_and_flags_clear() {
    let mut g = quiet_game();
    g.is_shielded = true;
    g.shield_timer = 100;
    g.is_speed_boosted = true;
    g.speed_boost_timer = 120;
    g.update(50);
    assert!(g.is_shielded);
    assert_eq!(g.shield_timer, 50);
    assert!(g.is_speed_boosted);
    g.update(70);
    assert!(!g.is_shielded);
    assert_eq!(g.shield_timer, 0);
    assert_eq!(g.speed_boost_timer, 0);
    assert!(!g.is_speed_boosted);
}

#[test]
fn eaten_food_is_replaced_on_a_free_interior_cell() {
    let mut g = quiet_game();
    let (nx, ny) = g.snake.next_head_position(None);
    g.place_food(nx, ny);
    g.update(250);
    assert!(!g.food_exists);
    g.update(10);
    assert!(g.food_exists);
    assert!(1 <= g.food_x && g.food_x < g.width - 1);
    assert!(1 <= g.food_y && g.food_y < g.height - 1);
    assert!(!g.snake.is_overlap_except_tail(g.food_x, g.food_y));
    assert_eq!(g.food_timer, 0);
}

#[test]
fn screen_shake_fades() {
    let mut g = quiet_game();
    g.screen_shake_timer = 100;
    g.screen_shake_intensity = 2000;
    g.update(50);
    assert_eq!(g.screen_shake_timer, 50);
    assert_eq!(g.screen_shake_intensity, 1800);
}

#[test]
fn random_spawning_places_powerups_on_free_cells() {
    // with the spawn chance forced to certainty, ticks accumulate
    // power-ups, each on a free interior cell
    let mut c = Config::standard();
    c.powerup_spawn_chance = 100;
    let mut g = Game::with_config(20, 20, c);
    for _ in 0..5 {
        g.update(1);
    }
    assert!(!g.powerups.is_empty());
    for p in g.powerups.iter() {
        assert!(1 <= p.x && p.x < 19);
        assert!(1 <= p.y && p.y < 19);
        assert!(!(g.food_exists && p.x == g.food_x && p.y == g.food_y));
        assert!(!g.snake.is_overlap_except_tail(p.x, p.y));
    }
}
