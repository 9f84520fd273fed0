use vstd::prelude::*;

use crate::direction::Direction;
use crate::rng::random_in_range;
use crate::snake::{
    spec_move, spec_restore, spec_snake_new, tongue_step_ok, Snake, SnakeView,
};

verus! {

/// The kind of a collectible power-up.
#[derive(Clone, Copy, PartialEq, Eq, Structural, Debug)]
pub enum PowerUpType {
    Speed,
    Shield,
}

/// A timed collectible sitting at a grid cell; `timer` is its age in
/// milliseconds since it was spawned.
#[derive(Clone, Copy, PartialEq, Eq, Structural, Debug)]
pub struct PowerUp {
    pub x: i32,
    pub y: i32,
    pub powerup_type: PowerUpType,
    pub timer: u64,
}

/// A key event as the game core sees it, already mapped from whatever the
/// windowing layer delivers.
#[derive(Clone, Copy, PartialEq, Eq, Structural, Debug)]
pub enum GameKey {
    Up,
    Down,
    Left,
    Right,
    Restart,
    Other,
}

/// The tunable rules of a game: all durations in milliseconds, the
/// power-up spawn chance in percent per tick, and the scoring table.
#[derive(Clone, Copy, PartialEq, Eq, Structural, Debug)]
pub struct Config {
    pub base_move_period: u64,
    pub boosted_move_period: u64,
    pub speed_boost_duration: u64,
    pub shield_duration: u64,
    pub powerup_spawn_chance: u64,
    pub powerup_max_age: u64,
    pub combo_window: u64,
    pub food_score: u32,
    pub combo_bonus_per_stack: u32,
    pub powerup_score: u32,
}

/// The standard rules: a step each 200 ms (100 ms while boosted), a 5 s
/// speed boost, a 10 s shield, a 2 % spawn chance per tick, a 10 s
/// despawn age, a 3 s combo window, and 10 / 2 / 50 points for food,
/// each combo stack, and a power-up.
pub open spec fn spec_standard_config() -> Config {
    Config {
        base_move_period: 200,
        boosted_move_period: 100,
        speed_boost_duration: 5000,
        shield_duration: 10000,
        powerup_spawn_chance: 2,
        powerup_max_age: 10000,
        combo_window: 3000,
        food_score: 10,
        combo_bonus_per_stack: 2,
        powerup_score: 50,
    }
}

impl Config {
    /// A configuration is well formed when its spawn chance is a
    /// percentage.
    pub open spec fn wf(self) -> bool {
        self.powerup_spawn_chance <= 100
    }

    /// Returns the standard rules.
    pub fn standard() -> (c: Config)
        ensures
            c == spec_standard_config(),
    {
        Config {
            base_move_period: 200,
            boosted_move_period: 100,
            speed_boost_duration: 5000,
            shield_duration: 10000,
            powerup_spawn_chance: 2,
            powerup_max_age: 10000,
            combo_window: 3000,
            food_score: 10,
            combo_bonus_per_stack: 2,
            powerup_score: 50,
        }
    }
}

/// How long and how strongly the screen shakes after eating food.
pub const SHAKE_EAT_TIME_MS: u64 = 100;

/// Shake strength after eating food, in thousandths of a cell.
pub const SHAKE_EAT_INTENSITY: u64 = 2000;

/// How long the screen shakes after collecting a power-up.
pub const SHAKE_POWERUP_TIME_MS: u64 = 200;

/// Shake strength after collecting a power-up, in thousandths of a cell.
pub const SHAKE_POWERUP_INTENSITY: u64 = 4000;

/// The largest shake strength the game ever sets.
pub const SHAKE_INTENSITY_MAX: u64 = 4000;

/// The mathematical model of a whole game: the snake, the food, the
/// live power-ups, the timers (all in milliseconds), the scores and the
/// state flags.
pub ghost struct GameView {
    pub snake: SnakeView,
    pub food_exists: bool,
    pub food_x: i32,
    pub food_y: i32,
    pub width: i32,
    pub height: i32,
    pub is_game_over: bool,
    pub waiting_time: u64,
    pub food_timer: u64,
    pub score: u32,
    pub powerups: Seq<PowerUp>,
    pub speed_boost_timer: u64,
    pub shield_timer: u64,
    pub is_speed_boosted: bool,
    pub is_shielded: bool,
    pub screen_shake_timer: u64,
    pub screen_shake_intensity: u64,
    pub combo_count: u32,
    pub combo_timer: u64,
    pub game_over_animation: u64,
    pub high_score: u32,
    pub config: Config,
}

/// Saturating addition on u64 values.
pub open spec fn sat_add64(a: u64, b: u64) -> u64 {
    if a + b > u64::MAX {
        u64::MAX
    } else {
        (a + b) as u64
    }
}

/// Saturating subtraction on u64 values.
pub open spec fn sat_sub64(a: u64, b: u64) -> u64 {
    if a >= b {
        (a - b) as u64
    } else {
        0
    }
}

/// Saturating addition on u32 values.
pub open spec fn sat_add32(a: u32, b: u32) -> u32 {
    if a + b > u32::MAX {
        u32::MAX
    } else {
        (a + b) as u32
    }
}

/// Saturating multiplication on u32 values.
pub open spec fn sat_mul32(a: u32, b: u32) -> u32 {
    if a * b > u32::MAX {
        u32::MAX
    } else {
        (a * b) as u32
    }
}

/// A game is well formed when its snake is, its board is big enough to
/// have an interior, its configuration is sound, and the shake strength
/// stays within what the game ever sets.
pub open spec fn wf_view(g: GameView) -> bool {
    &&& g.snake.wf()
    &&& g.width > 2
    &&& g.height > 2
    &&& g.config.wf()
    &&& g.screen_shake_intensity <= SHAKE_INTENSITY_MAX
}

/// The model of a freshly constructed game: the snake at (2, 2), food at
/// (5, 3), everything else at rest and the scores at zero.
pub open spec fn spec_game_new(width: i32, height: i32, config: Config) -> GameView {
    GameView {
        snake: spec_snake_new(2, 2),
        food_exists: true,
        food_x: 5,
        food_y: 3,
        width,
        height,
        is_game_over: false,
        waiting_time: 0,
        food_timer: 0,
        score: 0,
        powerups: Seq::empty(),
        speed_boost_timer: 0,
        shield_timer: 0,
        is_speed_boosted: false,
        is_shielded: false,
        screen_shake_timer: 0,
        screen_shake_intensity: 0,
        combo_count: 0,
        combo_timer: 0,
        game_over_animation: 0,
        high_score: 0,
        config,
    }
}

/// The state after a restart: everything per-round is rebuilt as at
/// construction; the board bounds, the rules and the high score carry
/// over.
pub open spec fn spec_restart(g: GameView) -> GameView {
    GameView { high_score: g.high_score, ..spec_game_new(g.width, g.height, g.config) }
}

/// Whether some live power-up sits at (x, y).
pub open spec fn spec_powerup_at(ps: Seq<PowerUp>, x: i32, y: i32) -> bool {
    exists|i: int| 0 <= i < ps.len() && powerup_is_at(#[trigger] ps[i], x, y)
}

/// Whether one power-up sits at (x, y).
pub open spec fn powerup_is_at(p: PowerUp, x: i32, y: i32) -> bool {
    p.x == x && p.y == y
}

/// The index of the first live power-up at (x, y), if any.
pub open spec fn first_powerup_at(ps: Seq<PowerUp>, x: i32, y: i32) -> Option<int>
    decreases ps.len(),
{
    if ps.len() == 0 {
        None
    } else if powerup_is_at(ps[0], x, y) {
        Some(0int)
    } else {
        match first_powerup_at(ps.drop_first(), x, y) {
            Some(i) => Some(i + 1),
            None => None,
        }
    }
}

/// Where a new power-up may appear: strictly inside the border ring, not
/// under the snake (its tail aside), not on the food, and not on a live
/// power-up.
pub open spec fn valid_powerup_cell(g: GameView, x: i32, y: i32) -> bool {
    &&& 1 <= x < g.width - 1
    &&& 1 <= y < g.height - 1
    &&& !g.snake.overlaps_except_tail(x, y)
    &&& !(g.food_exists && g.food_x == x && g.food_y == y)
    &&& !spec_powerup_at(g.powerups, x, y)
}

/// Where new food may appear: strictly inside the border ring, not under
/// the snake (its tail aside), and not on a live power-up.
pub open spec fn valid_food_cell(g: GameView, x: i32, y: i32) -> bool {
    &&& 1 <= x < g.width - 1
    &&& 1 <= y < g.height - 1
    &&& !g.snake.overlaps_except_tail(x, y)
    &&& !spec_powerup_at(g.powerups, x, y)
}

/// The liveness check: a prospective step dies on a non-tail body cell or
/// on the border ring, unless the shield is active.
pub open spec fn spec_alive(g: GameView, dir: Option<Direction>) -> bool {
    let nh = g.snake.next_head(dir);
    if g.snake.overlaps_except_tail(nh.x, nh.y) {
        g.is_shielded
    } else if nh.x <= 0 || nh.y <= 0 || nh.x >= g.width - 1 || nh.y >= g.height - 1 {
        g.is_shielded
    } else {
        true
    }
}

/// The movement period in force: the boosted one while the speed boost is
/// active, the base one otherwise.
pub open spec fn spec_period(g: GameView) -> u64 {
    if g.is_speed_boosted {
        g.config.boosted_move_period
    } else {
        g.config.base_move_period
    }
}

/// The game after resolving food at the new head cell: the food is
/// consumed, the snake grows by the remembered tail cell, the combo
/// advances and the score rises by the food score plus the combo bonus
/// (paid only past the first catch of a chain), and a light shake starts.
pub open spec fn spec_eat_food(g: GameView) -> GameView {
    let head = g.snake.head();
    if g.food_exists && g.food_x == head.x && g.food_y == head.y {
        let cc = sat_add32(g.combo_count, 1);
        let bonus = if cc > 1 {
            sat_mul32(cc, g.config.combo_bonus_per_stack)
        } else {
            0u32
        };
        GameView {
            food_exists: false,
            snake: spec_restore(g.snake),
            combo_count: cc,
            combo_timer: g.config.combo_window,
            score: sat_add32(g.score, sat_add32(g.config.food_score, bonus)),
            screen_shake_timer: SHAKE_EAT_TIME_MS,
            screen_shake_intensity: SHAKE_EAT_INTENSITY,
            ..g
        }
    } else {
        g
    }
}

/// The game after resolving a power-up at the new head cell: the first
/// matching power-up is removed, its effect starts afresh (re-collecting
/// refreshes, never stacks), a fixed bonus is scored and a strong shake
/// starts.
pub open spec fn spec_collect_powerup(g: GameView) -> GameView {
    let head = g.snake.head();
    match first_powerup_at(g.powerups, head.x, head.y) {
        None => g,
        Some(i) => {
            let g1 = match g.powerups[i].powerup_type {
                PowerUpType::Speed => GameView {
                    is_speed_boosted: true,
                    speed_boost_timer: g.config.speed_boost_duration,
                    ..g
                },
                PowerUpType::Shield => GameView {
                    is_shielded: true,
                    shield_timer: g.config.shield_duration,
                    ..g
                },
            };
            GameView {
                score: sat_add32(g1.score, g1.config.powerup_score),
                screen_shake_timer: SHAKE_POWERUP_TIME_MS,
                screen_shake_intensity: SHAKE_POWERUP_INTENSITY,
                powerups: g1.powerups.remove(i),
                ..g1
            }
        },
    }
}

/// Eating and collection together: both can fire on the same step, and
/// both read the same new head cell.
pub open spec fn spec_check_eating(g: GameView) -> GameView {
    spec_collect_powerup(spec_eat_food(g))
}

/// One movement step: if the liveness check passes (or the shield absorbs
/// the hazard) the snake moves and eating resolves; otherwise the game
/// ends, the timed effects reset and the high score is settled. Either
/// way the movement wait restarts.
pub open spec fn spec_update_snake(g: GameView, dir: Option<Direction>) -> GameView {
    let g2 = if spec_alive(g, dir) {
        spec_check_eating(GameView { snake: spec_move(g.snake, dir), ..g })
    } else {
        GameView {
            is_game_over: true,
            game_over_animation: 0,
            speed_boost_timer: 0,
            shield_timer: 0,
            is_speed_boosted: false,
            is_shielded: false,
            screen_shake_timer: 0,
            high_score: if g.score > g.high_score {
                g.score
            } else {
                g.high_score
            },
            ..g
        }
    };
    GameView { waiting_time: 0, ..g2 }
}

/// The direction a key asks for, if it is a direction key.
pub open spec fn spec_key_direction(key: GameKey) -> Option<Direction> {
    match key {
        GameKey::Up => Some(Direction::Up),
        GameKey::Down => Some(Direction::Down),
        GameKey::Left => Some(Direction::Left),
        GameKey::Right => Some(Direction::Right),
        _ => None,
    }
}

/// What a key press does: while the game is over only the restart key has
/// effect; while playing a direction key triggers an immediate step with
/// that heading, unless it is the exact reverse of the current heading,
/// which is silently discarded.
pub open spec fn spec_key_pressed(g: GameView, key: GameKey) -> GameView {
    if g.is_game_over {
        if key == GameKey::Restart {
            spec_restart(g)
        } else {
            g
        }
    } else {
        match spec_key_direction(key) {
            None => g,
            Some(d) => if d == g.snake.dir.spec_opposite() {
                g
            } else {
                spec_update_snake(g, Some(d))
            },
        }
    }
}

/// One power-up aged by the elapsed time.
pub open spec fn spec_aged(p: PowerUp, dt: u64) -> PowerUp {
    PowerUp { timer: sat_add64(p.timer, dt), ..p }
}

/// The power-up list after one tick: every age advanced by the elapsed
/// time, and those at or past the despawn age removed, order kept.
pub open spec fn spec_prune(ps: Seq<PowerUp>, dt: u64, max_age: u64) -> Seq<PowerUp>
    decreases ps.len(),
{
    if ps.len() == 0 {
        Seq::empty()
    } else {
        let p0 = spec_aged(ps[0], dt);
        let rest = spec_prune(ps.drop_first(), dt, max_age);
        if p0.timer < max_age {
            seq![p0] + rest
        } else {
            rest
        }
    }
}

/// One countdown with its flag: while the countdown runs it loses the
/// elapsed time, and the flag clears the moment it reaches zero.
pub open spec fn spec_decay_effect(timer: u64, flag: bool, dt: u64) -> (u64, bool) {
    if timer > 0 {
        let nt = sat_sub64(timer, dt);
        (nt, if nt == 0 {
            false
        } else {
            flag
        })
    } else {
        (timer, flag)
    }
}

/// The deterministic timer work of one tick: the waiting and food clocks
/// gain the elapsed time, the boost, shield, shake and combo countdowns
/// lose it (clearing their flags, the shake fading by a tenth, the combo
/// count resetting at zero), and while the game is over the end-screen
/// clock advances.
pub open spec fn spec_tick(g: GameView, dt: u64) -> GameView {
    let sb = spec_decay_effect(g.speed_boost_timer, g.is_speed_boosted, dt);
    let sh = spec_decay_effect(g.shield_timer, g.is_shielded, dt);
    let shake_timer = if g.screen_shake_timer > 0 {
        sat_sub64(g.screen_shake_timer, dt)
    } else {
        g.screen_shake_timer
    };
    let shake_int = if g.screen_shake_timer > 0 {
        (g.screen_shake_intensity * 9 / 10) as u64
    } else {
        g.screen_shake_intensity
    };
    let combo_timer = if g.combo_timer > 0 {
        sat_sub64(g.combo_timer, dt)
    } else {
        g.combo_timer
    };
    let combo_count = if g.combo_timer > 0 && sat_sub64(g.combo_timer, dt) == 0 {
        0u32
    } else {
        g.combo_count
    };
    GameView {
        waiting_time: sat_add64(g.waiting_time, dt),
        food_timer: sat_add64(g.food_timer, dt),
        speed_boost_timer: sb.0,
        is_speed_boosted: sb.1,
        shield_timer: sh.0,
        is_shielded: sh.1,
        screen_shake_timer: shake_timer,
        screen_shake_intensity: shake_int,
        combo_timer: combo_timer,
        combo_count: combo_count,
        game_over_animation: if g.is_game_over {
            sat_add64(g.game_over_animation, dt)
        } else {
            g.game_over_animation
        },
        ..g
    }
}

/// One tick may add at most one new power-up, aged zero, on a valid free
/// cell of the board state `t`; and none at all when the spawn chance is
/// zero.
pub open spec fn spawn_step_ok(t: GameView, post_ps: Seq<PowerUp>) -> bool {
    ||| post_ps == t.powerups
    ||| {
        &&& t.config.powerup_spawn_chance > 0
        &&& post_ps.len() == t.powerups.len() + 1
        &&& post_ps.drop_last() == t.powerups
        &&& valid_powerup_cell(t, post_ps.last().x, post_ps.last().y)
        &&& post_ps.last().timer == 0
    }
}

/// Whether the board still has any cell where food may appear.
pub open spec fn exists_free_food_cell(g: GameView) -> bool {
    exists|x: i32, y: i32| valid_food_cell(g, x, y)
}

/// Food placement in one tick: existing food stays put; missing food is
/// replaced on a valid free cell — owed whenever any such cell is left —
/// and its pulse clock restarts.
pub open spec fn food_step_ok(t: GameView, post: GameView) -> bool {
    if t.food_exists || !exists_free_food_cell(t) {
        &&& post.food_exists == t.food_exists
        &&& post.food_x == t.food_x
        &&& post.food_y == t.food_y
        &&& post.food_timer == t.food_timer
    } else {
        &&& post.food_exists
        &&& valid_food_cell(t, post.food_x, post.food_y)
        &&& post.food_timer == 0
    }
}

/// The mid state of one playing tick, after the clocks, the tongue, the
/// power-up ageing and spawning and the food placement, but before the
/// movement decision; and how the tick's end state follows from it.
pub open spec fn playing_update_step(pre: GameView, mid: GameView, post: GameView, dt: u64) -> bool {
    let t = spec_tick(pre, dt);
    let pruned = spec_prune(t.powerups, dt, t.config.powerup_max_age);
    &&& tongue_step_ok(pre.snake, mid.snake, dt)
    &&& spawn_step_ok(GameView { snake: mid.snake, powerups: pruned, ..t }, mid.powerups)
    &&& food_step_ok(
        GameView { snake: mid.snake, powerups: mid.powerups, ..t },
        mid,
    )
    &&& mid == (GameView {
        snake: mid.snake,
        powerups: mid.powerups,
        food_exists: mid.food_exists,
        food_x: mid.food_x,
        food_y: mid.food_y,
        food_timer: mid.food_timer,
        ..t
    })
    &&& post == (if mid.waiting_time > spec_period(mid) {
        spec_update_snake(mid, None)
    } else {
        mid
    })
}

/// How one update tick relates the state before to the state after. While
/// the game is over only the clocks and the tongue move. While playing,
/// the clocks and tongue advance, power-ups age away and at most one may
/// spawn, missing food is replaced, and once the movement wait exceeds
/// the period in force one unforced movement step fires.
pub open spec fn spec_update_rel(pre: GameView, post: GameView, dt: u64) -> bool {
    if pre.is_game_over {
        exists|sn: SnakeView|
            #[trigger] tongue_step_ok(pre.snake, sn, dt) && post == (GameView {
                snake: sn,
                ..spec_tick(pre, dt)
            })
    } else {
        exists|mid: GameView| #[trigger] playing_update_step(pre, mid, post, dt)
    }
}

/// The aggregate root: the snake, the food, the live power-ups, all the
/// clocks (milliseconds), the scores and the state flags, plus the fixed
/// board bounds and rules.
pub struct Game {
    pub snake: Snake,
    pub food_exists: bool,
    pub food_x: i32,
    pub food_y: i32,
    pub width: i32,
    pub height: i32,
    pub is_game_over: bool,
    pub waiting_time: u64,
    pub food_timer: u64,
    pub score: u32,
    pub powerups: Vec<PowerUp>,
    pub speed_boost_timer: u64,
    pub shield_timer: u64,
    pub is_speed_boosted: bool,
    pub is_shielded: bool,
    pub screen_shake_timer: u64,
    pub screen_shake_intensity: u64,
    pub combo_count: u32,
    pub combo_timer: u64,
    pub game_over_animation: u64,
    pub high_score: u32,
    pub config: Config,
}

impl View for Game {
    type V = GameView;

    open spec fn view(&self) -> GameView {
        GameView {
            snake: self.snake@,
            food_exists: self.food_exists,
            food_x: self.food_x,
            food_y: self.food_y,
            width: self.width,
            height: self.height,
            is_game_over: self.is_game_over,
            waiting_time: self.waiting_time,
            food_timer: self.food_timer,
            score: self.score,
            powerups: self.powerups@,
            speed_boost_timer: self.speed_boost_timer,
            shield_timer: self.shield_timer,
            is_speed_boosted: self.is_speed_boosted,
            is_shielded: self.is_shielded,
            screen_shake_timer: self.screen_shake_timer,
            screen_shake_intensity: self.screen_shake_intensity,
            combo_count: self.combo_count,
            combo_timer: self.combo_timer,
            game_over_animation: self.game_over_animation,
            high_score: self.high_score,
            config: self.config,
        }
    }
}

impl Game {
    /// Builds a game on the given board with the given rules.
    pub fn with_config(width: i32, height: i32, config: Config) -> (g: Game)
        requires
            width > 2,
            height > 2,
            config.wf(),
        ensures
            g@ == spec_game_new(width, height, config),
            wf_view(g@),
    {
        Game {
            snake: Snake::new(2, 2),
            food_exists: true,
            food_x: 5,
            food_y: 3,
            width,
            height,
            is_game_over: false,
            waiting_time: 0,
            food_timer: 0,
            score: 0,
            powerups: Vec::new(),
            speed_boost_timer: 0,
            shield_timer: 0,
            is_speed_boosted: false,
            is_shielded: false,
            screen_shake_timer: 0,
            screen_shake_intensity: 0,
            combo_count: 0,
            combo_timer: 0,
            game_over_animation: 0,
            high_score: 0,
            config,
        }
    }

    /// Builds a game on the given board with the standard rules.
    pub fn new(width: i32, height: i32) -> (g: Game)
        requires
            width > 2,
            height > 2,
        ensures
            g@ == spec_game_new(width, height, spec_standard_config()),
            wf_view(g@),
    {
        Game::with_config(width, height, Config::standard())
    }

    /// Rebuilds all per-round state; the board bounds, the rules and the
    /// high score carry over.
    pub fn restart(&mut self)
        requires
            wf_view(old(self)@),
        ensures
            final(self)@ == spec_restart(old(self)@),
            wf_view(final(self)@),
    {
        self.snake = Snake::new(2, 2);
        self.waiting_time = 0;
        self.food_exists = true;
        self.food_x = 5;
        self.food_y = 3;
        self.is_game_over = false;
        self.food_timer = 0;
        self.score = 0;
        self.powerups = Vec::new();
        self.speed_boost_timer = 0;
        self.shield_timer = 0;
        self.is_speed_boosted = false;
        self.is_shielded = false;
        self.screen_shake_timer = 0;
        self.screen_shake_intensity = 0;
        self.combo_count = 0;
        self.combo_timer = 0;
        self.game_over_animation = 0;
    }

    /// Puts the food at a chosen cell, so that a caller can set up a board
    /// state deterministically.
    pub fn place_food(&mut self, x: i32, y: i32)
        requires
            wf_view(old(self)@),
        ensures
            final(self)@ == (GameView { food_exists: true, food_x: x, food_y: y, ..old(self)@ }),
            wf_view(final(self)@),
    {
        self.food_exists = true;
        self.food_x = x;
        self.food_y = y;
    }

    /// The liveness check for a prospective step with the given override.
    fn check_if_snake_alive(&self, dir: Option<Direction>) -> (r: bool)
        requires
            wf_view(self@),
        ensures
            r == spec_alive(self@, dir),
    {
        let (next_x, next_y) = self.snake.next_head_position(dir);
        if self.snake.is_overlap_except_tail(next_x, next_y) {
            return self.is_shielded;
        }
        let wall_collision = next_x <= 0 || next_y <= 0 || next_x >= self.width - 1 || next_y
            >= self.height - 1;
        if wall_collision {
            return self.is_shielded;
        }
        true
    }

    /// Advances all the deterministic clocks of one tick.
    fn tick_timers(&mut self, delta_time: u64)
        requires
            wf_view(old(self)@),
        ensures
            final(self)@ == spec_tick(old(self)@, delta_time),
            wf_view(final(self)@),
    {
        self.waiting_time = self.waiting_time.saturating_add(delta_time);
        self.food_timer = self.food_timer.saturating_add(delta_time);
        if self.speed_boost_timer > 0 {
            self.speed_boost_timer = self.speed_boost_timer.saturating_sub(delta_time);
            if self.speed_boost_timer == 0 {
                self.is_speed_boosted = false;
            }
        }
        if self.shield_timer > 0 {
            self.shield_timer = self.shield_timer.saturating_sub(delta_time);
            if self.shield_timer == 0 {
                self.is_shielded = false;
            }
        }
        if self.screen_shake_timer > 0 {
            self.screen_shake_timer = self.screen_shake_timer.saturating_sub(delta_time);
            self.screen_shake_intensity = self.screen_shake_intensity * 9 / 10;
        }
        if self.combo_timer > 0 {
            self.combo_timer = self.combo_timer.saturating_sub(delta_time);
            if self.combo_timer == 0 {
                self.combo_count = 0;
            }
        }
        if self.is_game_over {
            self.game_over_animation = self.game_over_animation.saturating_add(delta_time);
        }
    }

    /// Ages every live power-up by the elapsed time and drops those at or
    /// past the despawn age.
    fn age_powerups(&mut self, delta_time: u64)
        requires
            wf_view(old(self)@),
        ensures
            final(self)@ == (GameView {
                powerups: spec_prune(
                    old(self)@.powerups,
                    delta_time,
                    old(self)@.config.powerup_max_age,
                ),
                ..old(self)@
            }),
            wf_view(final(self)@),
    {
        let ghost orig = self.powerups@;
        let max_age: u64 = self.config.powerup_max_age;
        let mut kept: Vec<PowerUp> = Vec::new();
        let mut i: usize = 0;
        proof {
            assert(orig.skip(0) =~= orig);
            assert(kept@ + spec_prune(orig.skip(0), delta_time, max_age) =~= spec_prune(
                orig,
                delta_time,
                max_age,
            ));
        }
        while i < self.powerups.len()
            invariant
                i <= self.powerups@.len(),
                self.powerups@ == orig,
                max_age == self.config.powerup_max_age,
                kept@ + spec_prune(orig.skip(i as int), delta_time, max_age) == spec_prune(
                    orig,
                    delta_time,
                    max_age,
                ),
            decreases self.powerups@.len() - i,
        {
            proof {
                lemma_prune_step(orig, delta_time, max_age, i as int);
            }
            let mut p = self.powerups[i];
            p.timer = p.timer.saturating_add(delta_time);
            if p.timer < max_age {
                kept.push(p);
            }
            proof {
                assert(kept@ + spec_prune(orig.skip(i + 1), delta_time, max_age) =~= spec_prune(
                    orig,
                    delta_time,
                    max_age,
                ));
            }
            i = i + 1;
        }
        proof {
            assert(orig.skip(i as int) =~= Seq::<PowerUp>::empty());
            assert(kept@ =~= spec_prune(orig, delta_time, max_age));
        }
        self.powerups = kept;
    }

    /// One movement step, shared by the input-triggered and the
    /// timer-triggered paths: the step commits and eating resolves when
    /// the liveness check passes; otherwise the game ends.
    pub fn update_snake(&mut self, dir: Option<Direction>)
        requires
            wf_view(old(self)@),
        ensures
            final(self)@ == spec_update_snake(old(self)@, dir),
            wf_view(final(self)@),
    {
        if self.check_if_snake_alive(dir) {
            self.snake.move_forward(dir);
            self.check_eating();
        } else {
            self.is_game_over = true;
            self.game_over_animation = 0;
            self.speed_boost_timer = 0;
            self.shield_timer = 0;
            self.is_speed_boosted = false;
            self.is_shielded = false;
            self.screen_shake_timer = 0;
            if self.score > self.high_score {
                self.high_score = self.score;
            }
        }
        self.waiting_time = 0;
    }

    /// Feeds one key event to the game: while the game is over only the
    /// restart key has effect; while playing a direction key triggers an
    /// immediate step, unless it asks for the exact reverse of the
    /// current heading.
    pub fn key_pressed(&mut self, key: GameKey)
        requires
            wf_view(old(self)@),
        ensures
            final(self)@ == spec_key_pressed(old(self)@, key),
            wf_view(final(self)@),
    {
        if self.is_game_over {
            if key == GameKey::Restart {
                self.restart();
            }
            return ;
        }
        let d = match key {
            GameKey::Up => Direction::Up,
            GameKey::Down => Direction::Down,
            GameKey::Left => Direction::Left,
            GameKey::Right => Direction::Right,
            _ => {
                return ;
            },
        };
        if d == self.snake.head_direction().opposite() {
            return ;
        }
        self.update_snake(Some(d));
    }

    /// Advances the whole game by one tick of `delta_time` milliseconds:
    /// all clocks move; while playing, power-ups age away and may spawn,
    /// missing food is replaced, and once the movement wait exceeds the
    /// period in force the snake takes one unforced step.
    pub fn update(&mut self, delta_time: u64)
        requires
            wf_view(old(self)@),
        ensures
            spec_update_rel(old(self)@, final(self)@, delta_time),
            wf_view(final(self)@),
    {
        let ghost pre = old(self)@;
        self.tick_timers(delta_time);
        let ghost t = self@;
        self.snake.update_tongue(delta_time);
        if self.is_game_over {
            proof {
                let sn = self@.snake;
                assert(tongue_step_ok(pre.snake, sn, delta_time));
                assert(self@ == (GameView { snake: sn, ..spec_tick(pre, delta_time) }));
            }
            return ;
        }
        self.age_powerups(delta_time);
        let ghost after_prune = self@;
        let roll: i64 = random_in_range(0, 100);
        if roll < self.config.powerup_spawn_chance as i64 {
            self.spawn_powerup();
        }
        let ghost after_spawn = self@;
        proof {
            assert(spawn_step_ok(after_prune, after_spawn.powerups));
        }
        if !self.food_exists {
            self.add_food();
        }
        let ghost mid = self@;
        proof {
            assert(food_step_ok(after_spawn, mid));
        }
        let period: u64 = if self.is_speed_boosted {
            self.config.boosted_move_period
        } else {
            self.config.base_move_period
        };
        if self.waiting_time > period {
            self.update_snake(None);
        }
        proof {
            assert(playing_update_step(pre, mid, self@, delta_time));
        }
    }

    /// Reports whether some live power-up sits at (x, y).
    fn powerup_at(&self, x: i32, y: i32) -> (r: bool)
        ensures
            r == spec_powerup_at(self@.powerups, x, y),
    {
        let mut i: usize = 0;
        while i < self.powerups.len()
            invariant
                i <= self.powerups@.len(),
                forall|j: int| 0 <= j < i ==> !powerup_is_at(#[trigger] self.powerups@[j], x, y),
            decreases self.powerups@.len() - i,
        {
            let p = self.powerups[i];
            if p.x == x && p.y == y {
                proof {
                    assert(powerup_is_at(self.powerups@[i as int], x, y));
                }
                return true;
            }
            i = i + 1;
        }
        false
    }

    /// Draws a random interior coordinate, strictly inside the border
    /// ring of a board of the given extent.
    fn random_coord(limit: i32) -> (r: i32)
        requires
            limit > 2,
        ensures
            1 <= r < limit - 1,
    {
        let v: i64 = random_in_range(1, (limit - 1) as i64);
        v as i32
    }

    /// Reports whether a power-up may appear at the interior cell (x, y).
    fn powerup_cell_free(&self, x: i32, y: i32) -> (r: bool)
        requires
            wf_view(self@),
            1 <= x < self@.width - 1,
            1 <= y < self@.height - 1,
        ensures
            r == valid_powerup_cell(self@, x, y),
    {
        !self.snake.is_overlap_except_tail(x, y) && !(self.food_exists && x == self.food_x && y
            == self.food_y) && !self.powerup_at(x, y)
    }

    /// Reports whether food may appear at the interior cell (x, y).
    fn food_cell_free(&self, x: i32, y: i32) -> (r: bool)
        requires
            wf_view(self@),
            1 <= x < self@.width - 1,
            1 <= y < self@.height - 1,
        ensures
            r == valid_food_cell(self@, x, y),
    {
        !self.snake.is_overlap_except_tail(x, y) && !self.powerup_at(x, y)
    }

    /// Spawns one power-up of a random kind on a random free interior
    /// cell, redrawing a bounded number of times; a round of draws that
    /// never hits a free cell spawns nothing.
    fn spawn_powerup(&mut self)
        requires
            wf_view(old(self)@),
            old(self)@.config.powerup_spawn_chance > 0,
        ensures
            final(self)@ == (GameView { powerups: final(self)@.powerups, ..old(self)@ }),
            spawn_step_ok(old(self)@, final(self)@.powerups),
            wf_view(final(self)@),
    {
        let mut new_x = Game::random_coord(self.width);
        let mut new_y = Game::random_coord(self.height);
        let mut free = self.powerup_cell_free(new_x, new_y);
        let mut attempts: u32 = 0;
        while !free && attempts < 10000
            invariant
                wf_view(self@),
                self@ == old(self)@,
                1 <= new_x < self@.width - 1,
                1 <= new_y < self@.height - 1,
                free ==> valid_powerup_cell(self@, new_x, new_y),
            decreases 10000 - attempts,
        {
            new_x = Game::random_coord(self.width);
            new_y = Game::random_coord(self.height);
            free = self.powerup_cell_free(new_x, new_y);
            attempts = attempts + 1;
        }
        if free {
            let powerup_type = if random_in_range(0, 2) == 0 {
                PowerUpType::Speed
            } else {
                PowerUpType::Shield
            };
            self.powerups.push(PowerUp { x: new_x, y: new_y, powerup_type, timer: 0 });
            proof {
                assert(self@.powerups.drop_last() =~= old(self)@.powerups);
            }
        }
    }

    /// Places new food and restarts its pulse clock: first on a random
    /// free interior cell, redrawing a bounded number of times; then, if
    /// the draws never hit one, on the first free cell of a scan of the
    /// whole interior. Food is left missing only when no free cell is
    /// left at all.
    fn add_food(&mut self)
        requires
            wf_view(old(self)@),
        ensures
            final(self)@ == (GameView {
                food_exists: final(self)@.food_exists,
                food_x: final(self)@.food_x,
                food_y: final(self)@.food_y,
                food_timer: final(self)@.food_timer,
                ..old(self)@
            }),
            exists_free_food_cell(old(self)@) ==> final(self)@.food_exists && valid_food_cell(
                old(self)@,
                final(self)@.food_x,
                final(self)@.food_y,
            ) && final(self)@.food_timer == 0,
            !exists_free_food_cell(old(self)@) ==> final(self)@ == old(self)@,
            wf_view(final(self)@),
    {
        let mut new_x = Game::random_coord(self.width);
        let mut new_y = Game::random_coord(self.height);
        let mut free = self.food_cell_free(new_x, new_y);
        let mut attempts: u32 = 0;
        while !free && attempts < 10000
            invariant
                wf_view(self@),
                self@ == old(self)@,
                1 <= new_x < self@.width - 1,
                1 <= new_y < self@.height - 1,
                free ==> valid_food_cell(self@, new_x, new_y),
            decreases 10000 - attempts,
        {
            new_x = Game::random_coord(self.width);
            new_y = Game::random_coord(self.height);
            free = self.food_cell_free(new_x, new_y);
            attempts = attempts + 1;
        }
        if free {
            self.food_x = new_x;
            self.food_y = new_y;
            self.food_exists = true;
            self.food_timer = 0;
            return ;
        }
        let mut fy: i32 = 1;
        while fy < self.height - 1
            invariant
                wf_view(self@),
                self@ == old(self)@,
                1 <= fy <= self@.height - 1,
                forall|x: i32, y: i32|
                    1 <= y < fy && 1 <= x < self@.width - 1 ==> !valid_food_cell(self@, x, y),
            decreases self@.height - 1 - fy,
        {
            let mut fx: i32 = 1;
            while fx < self.width - 1
                invariant
                    wf_view(self@),
                    self@ == old(self)@,
                    1 <= fy < self@.height - 1,
                    1 <= fx <= self@.width - 1,
                    forall|x: i32, y: i32|
                        1 <= y < fy && 1 <= x < self@.width - 1 ==> !valid_food_cell(self@, x, y),
                    forall|x: i32| 1 <= x < fx ==> !valid_food_cell(self@, x, fy),
                decreases self@.width - 1 - fx,
            {
                if self.food_cell_free(fx, fy) {
                    self.food_x = fx;
                    self.food_y = fy;
                    self.food_exists = true;
                    self.food_timer = 0;
                    return ;
                }
                fx = fx + 1;
            }
            fy = fy + 1;
        }
        proof {
            assert forall|x: i32, y: i32| !valid_food_cell(old(self)@, x, y) by {
                if 1 <= x < old(self)@.width - 1 && 1 <= y < old(self)@.height - 1 {
                    assert(!valid_food_cell(old(self)@, x, y));
                }
            }
        }
    }

    /// Resolves eating and power-up collection at the current head cell,
    /// right after a movement step.
    fn check_eating(&mut self)
        requires
            wf_view(old(self)@),
            old(self)@.food_exists && old(self)@.food_x == old(self)@.snake.head().x && old(
                self,
            )@.food_y == old(self)@.snake.head().y ==> old(self)@.snake.last_removed is Some,
        ensures
            final(self)@ == spec_check_eating(old(self)@),
            wf_view(final(self)@),
    {
        let (head_x, head_y) = self.snake.head_position();
        if self.food_exists && self.food_x == head_x && self.food_y == head_y {
            self.food_exists = false;
            self.snake.restore_last_removed();
            self.combo_count = self.combo_count.saturating_add(1);
            self.combo_timer = self.config.combo_window;
            let combo_bonus: u32 = if self.combo_count > 1 {
                sat_mul_u32(self.combo_count, self.config.combo_bonus_per_stack)
            } else {
                0
            };
            self.score = self.score.saturating_add(
                self.config.food_score.saturating_add(combo_bonus),
            );
            self.screen_shake_timer = SHAKE_EAT_TIME_MS;
            self.screen_shake_intensity = SHAKE_EAT_INTENSITY;
        }
        let ghost g1 = spec_eat_food(old(self)@);
        proof {
            assert(self@ == g1);
        }
        let mut idx: usize = 0;
        let mut found: bool = false;
        while idx < self.powerups.len() && !found
            invariant
                idx <= self.powerups@.len(),
                found ==> idx < self.powerups@.len() && powerup_is_at(
                    self.powerups@[idx as int],
                    head_x,
                    head_y,
                ),
                forall|j: int| 0 <= j < idx ==> !powerup_is_at(#[trigger] self.powerups@[j], head_x, head_y),
                self@ == g1,
            decreases self.powerups@.len() - idx + (if found {
                0int
            } else {
                1int
            }),
        {
            let p = self.powerups[idx];
            if p.x == head_x && p.y == head_y {
                found = true;
            } else {
                idx = idx + 1;
            }
        }
        if found {
            proof {
                lemma_first_powerup_at_found(self.powerups@, head_x, head_y, idx as int);
            }
            let p = self.powerups[idx];
            match p.powerup_type {
                PowerUpType::Speed => {
                    self.is_speed_boosted = true;
                    self.speed_boost_timer = self.config.speed_boost_duration;
                },
                PowerUpType::Shield => {
                    self.is_shielded = true;
                    self.shield_timer = self.config.shield_duration;
                },
            }
            self.score = self.score.saturating_add(self.config.powerup_score);
            self.screen_shake_timer = SHAKE_POWERUP_TIME_MS;
            self.screen_shake_intensity = SHAKE_POWERUP_INTENSITY;
            self.powerups.remove(idx);
        } else {
            proof {
                lemma_first_powerup_at_none(self.powerups@, head_x, head_y);
            }
        }
    }
}

/// Saturating multiplication of u32 values.
fn sat_mul_u32(a: u32, b: u32) -> (r: u32)
    ensures
        r == sat_mul32(a, b),
{
    if b != 0 && a > u32::MAX / b {
        proof {
            assert(a * b > u32::MAX) by (nonlinear_arith)
                requires
                    b != 0 && a > u32::MAX / b,
            ;
        }
        u32::MAX
    } else {
        proof {
            assert(b == 0 || a * b <= u32::MAX) by (nonlinear_arith)
                requires
                    b == 0 || a <= u32::MAX / b,
            ;
        }
        a * b
    }
}

/// If no power-up in the list sits at (x, y), the first-match search
/// comes up empty.
proof fn lemma_first_powerup_at_none(ps: Seq<PowerUp>, x: i32, y: i32)
    requires
        forall|j: int| 0 <= j < ps.len() ==> !powerup_is_at(#[trigger] ps[j], x, y),
    ensures
        first_powerup_at(ps, x, y) is None,
    decreases ps.len(),
{
    if ps.len() > 0 {
        assert(forall|j: int|
            0 <= j < ps.drop_first().len() ==> !powerup_is_at(
                #[trigger] ps.drop_first()[j],
                x,
                y,
            ));
        lemma_first_powerup_at_none(ps.drop_first(), x, y);
    }
}

/// If index `i` is the first power-up at (x, y), the first-match search
/// finds exactly it.
proof fn lemma_first_powerup_at_found(ps: Seq<PowerUp>, x: i32, y: i32, i: int)
    requires
        0 <= i < ps.len(),
        powerup_is_at(ps[i], x, y),
        forall|j: int| 0 <= j < i ==> !powerup_is_at(#[trigger] ps[j], x, y),
    ensures
        first_powerup_at(ps, x, y) == Some(i),
    decreases i,
{
    if i > 0 {
        assert(!powerup_is_at(ps[0], x, y));
        assert(ps.drop_first()[i - 1] == ps[i]);
        assert(forall|j: int|
            0 <= j < i - 1 ==> !powerup_is_at(#[trigger] ps.drop_first()[j], x, y));
        lemma_first_powerup_at_found(ps.drop_first(), x, y, i - 1);
    }
}

/// Law (eating): when the food sits on the cell the snake is about to
/// enter, that cell is strictly inside the border ring and free of the
/// snake's own body and of power-ups, then the movement step grows the
/// snake by one cell, consumes the food, and raises the score by the food
/// score plus the combo bonus (paid only past the first catch of a
/// chain).
pub proof fn lemma_eating_step(g: GameView, dir: Option<Direction>)
    requires
        wf_view(g),
        g.food_exists,
        g.food_x == g.snake.next_head(dir).x,
        g.food_y == g.snake.next_head(dir).y,
        0 < g.snake.next_head(dir).x < g.width - 1,
        0 < g.snake.next_head(dir).y < g.height - 1,
        !g.snake.overlaps_except_tail(g.snake.next_head(dir).x, g.snake.next_head(dir).y),
        !spec_powerup_at(g.powerups, g.snake.next_head(dir).x, g.snake.next_head(dir).y),
    ensures
        spec_update_snake(g, dir).snake.body.len() == g.snake.body.len() + 1,
        !spec_update_snake(g, dir).food_exists,
        spec_update_snake(g, dir).score == sat_add32(
            g.score,
            sat_add32(
                g.config.food_score,
                if sat_add32(g.combo_count, 1) > 1 {
                    sat_mul32(sat_add32(g.combo_count, 1), g.config.combo_bonus_per_stack)
                } else {
                    0u32
                },
            ),
        ),
        spec_update_snake(g, dir).is_game_over == g.is_game_over,
{
    let nh = g.snake.next_head(dir);
    assert(spec_alive(g, dir));
    let moved = GameView { snake: spec_move(g.snake, dir), ..g };
    assert(moved.snake.head() == nh);
    let g1 = spec_eat_food(moved);
    assert(g1.snake.body.len() == g.snake.body.len() + 1);
    assert(forall|j: int|
        0 <= j < g.powerups.len() ==> !powerup_is_at(#[trigger] g.powerups[j], nh.x, nh.y));
    lemma_first_powerup_at_none(g1.powerups, nh.x, nh.y);
}

/// Law (combo reset): when the combo window runs out during a tick in
/// which no movement step fires, the combo count is back at zero after
/// the tick.
pub proof fn lemma_combo_reset(pre: GameView, post: GameView, dt: u64)
    requires
        spec_update_rel(pre, post, dt),
        pre.combo_timer > 0,
        dt >= pre.combo_timer,
        !pre.is_game_over ==> sat_add64(pre.waiting_time, dt) <= spec_period(spec_tick(pre, dt)),
    ensures
        post.combo_count == 0,
{
    let t = spec_tick(pre, dt);
    assert(t.combo_count == 0);
    if pre.is_game_over {
        let sn = choose|sn: SnakeView|
            tongue_step_ok(pre.snake, sn, dt) && post == (GameView { snake: sn, ..t });
        assert(post.combo_count == t.combo_count);
    } else {
        let mid = choose|mid: GameView| playing_update_step(pre, mid, post, dt);
        assert(mid.combo_count == t.combo_count);
        assert(mid.waiting_time == t.waiting_time);
        assert(spec_period(mid) == spec_period(t));
        assert(post == mid);
    }
}

/// Law (shield immunity): a movement step taken while the shield is
/// active never ends the game, whatever the step would otherwise hit.
pub proof fn lemma_shield_immunity(g: GameView, dir: Option<Direction>)
    requires
        !g.is_game_over,
        g.is_shielded,
    ensures
        !spec_update_snake(g, dir).is_game_over,
{
}

/// Law (fatal step): without a shield, a step into the border ring or
/// into the snake's own non-tail body ends the game, leaves the body and
/// the score where they were, and raises the high score exactly when the
/// score beat it.
pub proof fn lemma_fatal_step(g: GameView, dir: Option<Direction>)
    requires
        !g.is_shielded,
        !spec_alive(g, dir),
    ensures
        spec_update_snake(g, dir).is_game_over,
        spec_update_snake(g, dir).snake == g.snake,
        spec_update_snake(g, dir).score == g.score,
        spec_update_snake(g, dir).high_score == if g.score > g.high_score {
            g.score
        } else {
            g.high_score
        },
{
}

/// Law (game over is stable): once the game is over, an update tick only
/// advances the clocks and the tongue; board, scores and the game-over
/// flag stay put, so the playing-to-over transition fires only once.
pub proof fn lemma_game_over_frozen(pre: GameView, post: GameView, dt: u64)
    requires
        spec_update_rel(pre, post, dt),
        pre.is_game_over,
    ensures
        post.is_game_over,
        post.score == pre.score,
        post.high_score == pre.high_score,
        post.snake.body == pre.snake.body,
        post.food_exists == pre.food_exists,
        post.powerups == pre.powerups,
{
    let t = spec_tick(pre, dt);
    let sn = choose|sn: SnakeView|
        tongue_step_ok(pre.snake, sn, dt) && post == (GameView { snake: sn, ..t });
    assert(post.snake.body == pre.snake.body);
}

/// Law (monotone score): a movement step never lowers the score or the
/// high score.
pub proof fn lemma_scores_monotone_step(g: GameView, dir: Option<Direction>)
    ensures
        spec_update_snake(g, dir).score >= g.score,
        spec_update_snake(g, dir).high_score >= g.high_score,
{
}

/// Law (monotone score): an update tick never lowers the score or the
/// high score.
pub proof fn lemma_scores_monotone_update(pre: GameView, post: GameView, dt: u64)
    requires
        spec_update_rel(pre, post, dt),
    ensures
        post.score >= pre.score,
        post.high_score >= pre.high_score,
{
    let t = spec_tick(pre, dt);
    if pre.is_game_over {
        let sn = choose|sn: SnakeView|
            tongue_step_ok(pre.snake, sn, dt) && post == (GameView { snake: sn, ..t });
        assert(post.score == pre.score);
    } else {
        let mid = choose|mid: GameView| playing_update_step(pre, mid, post, dt);
        assert(mid.score == pre.score && mid.high_score == pre.high_score);
        lemma_scores_monotone_step(mid, None);
    }
}

/// Law (monotone high score): a key press never lowers the high score —
/// a restart rebuilds the round but keeps it.
pub proof fn lemma_high_score_monotone_key(g: GameView, key: GameKey)
    ensures
        spec_key_pressed(g, key).high_score >= g.high_score,
{
}

/// Law (restart): restarting rebuilds exactly the freshly constructed
/// game on the same board with the same rules; only the high score
/// carries over.
pub proof fn lemma_restart_matches_initial(g: GameView)
    ensures
        spec_restart(g) == (GameView {
            high_score: g.high_score,
            ..spec_game_new(g.width, g.height, g.config)
        }),
{
}

/// Law (reversal rejection): while playing, the key for the exact
/// opposite of the current heading changes nothing at all.
pub proof fn lemma_reversal_rejected(g: GameView, key: GameKey)
    requires
        !g.is_game_over,
        spec_key_direction(key) == Some(g.snake.dir.spec_opposite()),
    ensures
        spec_key_pressed(g, key) == g,
{
}

/// Unrolls one element of `spec_prune`: pruning from index `i` keeps or
/// drops the aged element at `i` and goes on from `i + 1`.
proof fn lemma_prune_step(ps: Seq<PowerUp>, dt: u64, max_age: u64, i: int)
    requires
        0 <= i < ps.len(),
    ensures
        spec_prune(ps.skip(i), dt, max_age) == if spec_aged(ps[i], dt).timer < max_age {
            seq![spec_aged(ps[i], dt)] + spec_prune(ps.skip(i + 1), dt, max_age)
        } else {
            spec_prune(ps.skip(i + 1), dt, max_age)
        },
{
    assert(ps.skip(i)[0] == ps[i]);
    assert(ps.skip(i).drop_first() =~= ps.skip(i + 1));
}

} // verus!
