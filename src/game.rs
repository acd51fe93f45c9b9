use rand::rngs::StdRng;
use std::time::{Duration, Instant};
use vstd::prelude::*;

use crate::clock::{duration_of_millis, elapsed_since, millis_in, now, whole_millis};
use crate::config::{FOOD_PER_SPEED_LEVEL, GridSize, MAX_START_SPEED_LEVEL};
use crate::food::{food_at, food_at_position, is_free, spawn_food_avoiding, Food, FoodKind};
use crate::input::{Direction, GameInput};
use crate::random::{fresh_seed, gen_below, seeded_rng};
use crate::snake::{Position, Snake};

verus! {

/// High-level gameplay state.
#[derive(Debug, Clone, Copy, PartialEq, Eq, Structural)]
pub enum GameStatus {
    Playing,
    Paused,
    GameOver,
    Victory,
}

/// Why the game ended in `GameOver`.
#[derive(Debug, Clone, Copy, PartialEq, Eq, Structural)]
pub enum DeathReason {
    WallCollision,
    SelfCollision,
}

/// What triggered a glow effect on the snake.
#[derive(Debug, Clone, Copy, PartialEq, Eq, Structural)]
pub enum GlowTrigger {
    SpeedLevelUp,
    SuperFoodEaten,
}

/// Milliseconds a level-up glow lasts.
pub const SPEED_LEVEL_UP_GLOW_MS: u64 = 3000;

/// Milliseconds a super-food glow lasts.
pub const SUPER_FOOD_GLOW_MS: u64 = 1800;

/// Glow duration for each trigger.
pub open spec fn glow_duration(trigger: GlowTrigger) -> u64 {
    match trigger {
        GlowTrigger::SpeedLevelUp => SPEED_LEVEL_UP_GLOW_MS,
        GlowTrigger::SuperFoodEaten => SUPER_FOOD_GLOW_MS,
    }
}

/// A temporary visual pulse that fades over a fixed wall-clock duration.
#[derive(Debug, Clone, Copy)]
pub struct GlowEffect {
    pub trigger: GlowTrigger,
    pub started_at: Instant,
    pub duration_ms: u64,
}

impl GlowEffect {
    /// Starts a glow now, with the duration that belongs to `trigger`.
    pub fn new(trigger: GlowTrigger) -> (r: GlowEffect)
        ensures
            r.trigger == trigger,
            r.duration_ms == glow_duration(trigger),
    {
        let duration_ms = match trigger {
            GlowTrigger::SpeedLevelUp => SPEED_LEVEL_UP_GLOW_MS,
            GlowTrigger::SuperFoodEaten => SUPER_FOOD_GLOW_MS,
        };
        GlowEffect { trigger, started_at: now(), duration_ms }
    }

    /// The glow's length in milliseconds.
    pub fn duration_millis(&self) -> (r: u64)
        ensures
            r == self.duration_ms,
    {
        self.duration_ms
    }

    /// Milliseconds since the glow started, as the clock reads now.
    pub fn elapsed_millis(&self) -> (r: u128) {
        let elapsed = elapsed_since(&self.started_at);
        whole_millis(&elapsed)
    }

    /// Whether a glow `elapsed_ms` milliseconds old is still within its duration.
    pub fn active_after(&self, elapsed_ms: u128) -> (r: bool)
        ensures
            r == (elapsed_ms < self.duration_ms),
    {
        elapsed_ms < self.duration_ms as u128
    }

    /// Returns `true` while the effect is still within its duration window.
    pub fn is_active(&self) -> (r: bool)
        ensures
            r ==> self.duration_ms > 0,
    {
        let elapsed = self.elapsed_millis();
        self.active_after(elapsed)
    }
}

/// Food density: `foods_per` food items for every `cells_per` free cells.
#[derive(Debug, Clone, Copy, PartialEq, Eq, Structural)]
pub struct FoodDensity {
    pub foods_per: usize,
    pub cells_per: usize,
}

impl FoodDensity {
    pub open spec fn is_normalized(self) -> bool {
        self.foods_per >= 1 && self.cells_per >= 1
    }
}

/// Returns the default food density: one food per 200 free cells.
pub fn default_food_density() -> (r: FoodDensity)
    ensures
        r == (FoodDensity { foods_per: 1, cells_per: 200 }),
{
    FoodDensity { foods_per: 1, cells_per: 200 }
}

/// Raises each part of a density to at least 1.
pub fn normalize_food_density(food_density: FoodDensity) -> (r: FoodDensity)
    ensures
        r.is_normalized(),
        r == normalize_density_spec(food_density),
{
    FoodDensity {
        foods_per: if food_density.foods_per >= 1 {
            food_density.foods_per
        } else {
            1
        },
        cells_per: if food_density.cells_per >= 1 {
            food_density.cells_per
        } else {
            1
        },
    }
}

/// Target number of live food items: `free * foods_per / cells_per` (the
/// product saturating at `usize::MAX`), kept within `1..=free`; 0 on a full board.
pub open spec fn desired_count(total: nat, snake_len: nat, density: FoodDensity) -> nat {
    let free: nat = if total > snake_len {
        (total - snake_len) as nat
    } else {
        0
    };
    if free == 0 {
        0
    } else {
        let product: nat = free * (density.foods_per as nat);
        let capped: nat = if product > usize::MAX {
            usize::MAX as nat
        } else {
            product
        };
        let desired = capped / (density.cells_per as nat);
        if desired < 1 {
            1
        } else if desired > free {
            free
        } else {
            desired
        }
    }
}

/// Returns the live food count the density asks for on this board.
pub fn desired_food_count(bounds: GridSize, snake_len: usize, food_density: FoodDensity) -> (r:
    usize)
    requires
        food_density.cells_per >= 1,
    ensures
        r == desired_count(bounds.cells(), snake_len as nat, food_density),
{
    let total = bounds.total_cells();
    let free_cells = total.saturating_sub(snake_len);
    if free_cells == 0 {
        return 0;
    }
    let product: usize = match free_cells.checked_mul(food_density.foods_per) {
        Some(v) => v,
        None => usize::MAX,
    };
    let desired = product / food_density.cells_per;
    if desired < 1 {
        1
    } else if desired > free_cells {
        free_cells
    } else {
        desired
    }
}

/// Food needed to advance past `level`.
pub open spec fn food_required(level: nat) -> nat {
    if level <= 5 {
        (FOOD_PER_SPEED_LEVEL + level) as nat
    } else if level <= 10 {
        (FOOD_PER_SPEED_LEVEL + 2 * level) as nat
    } else {
        level * (FOOD_PER_SPEED_LEVEL as nat)
    }
}

/// The level reached from `level` with `remaining` food still to spend: each
/// step spends what leaving the current level costs, and levels stop at `u32::MAX`.
pub open spec fn level_after(level: nat, remaining: nat) -> nat
    decreases remaining,
{
    if remaining < food_required(level) || level >= u32::MAX {
        level
    } else {
        level_after(level + 1, (remaining - food_required(level)) as nat)
    }
}

/// Speed level for a snake of `snake_len` segments starting from `base`:
/// growth beyond the first two segments counts as food eaten.
pub open spec fn level_for_length(base: nat, snake_len: nat) -> nat {
    level_after(base, if snake_len > 2 { (snake_len - 2) as nat } else { 0 })
}

/// Returns the food needed to advance past `level`.
pub fn food_required_for_next_level(level: u32) -> (r: u64)
    ensures
        r == food_required(level as nat),
{
    if level <= 5 {
        FOOD_PER_SPEED_LEVEL as u64 + level as u64
    } else if level <= 10 {
        FOOD_PER_SPEED_LEVEL as u64 + 2 * (level as u64)
    } else {
        proof {
            assert((level as u64) * 5 <= 5 * 0xffff_ffffu64) by (nonlinear_arith)
                requires
                    level <= 0xffff_ffffu32,
            ;
        }
        (level as u64) * (FOOD_PER_SPEED_LEVEL as u64)
    }
}

/// Returns the speed level for a snake of `snake_len` segments, starting from `base`.
pub fn speed_level_for(base: u32, snake_len: usize) -> (r: u32)
    ensures
        r == level_for_length(base as nat, snake_len as nat),
{
    let mut level: u32 = base;
    let mut remaining: u64 = if snake_len > 2 {
        (snake_len - 2) as u64
    } else {
        0
    };
    loop
        invariant
            level_after(level as nat, remaining as nat) == level_for_length(
                base as nat,
                snake_len as nat,
            ),
        ensures
            level == level_for_length(base as nat, snake_len as nat),
        decreases remaining,
    {
        let required = food_required_for_next_level(level);
        if remaining < required || level == u32::MAX {
            assert(level_after(level as nat, remaining as nat) == level as nat);
            break;
        }
        assert(level_after(level as nat, remaining as nat) == level_after(
            (level + 1) as nat,
            (remaining - required) as nat,
        ));
        remaining = remaining - required;
        level = level + 1;
    }
    level
}

/// Points awarded for `base` points at a coverage of `num / den` percent:
/// `floor(base * (1 + min(coverage / 10, 9)))`.
pub open spec fn bonus_points(base: nat, num: nat, den: nat) -> nat {
    if num >= 90 * den {
        10 * base
    } else {
        (base * (10 * den + num)) / (10 * den)
    }
}

/// `v`, or `u32::MAX` when it does not fit.
pub open spec fn cap_u32(v: nat) -> nat {
    if v > u32::MAX {
        u32::MAX as nat
    } else {
        v
    }
}

/// `bonus_points` computed exactly in 128-bit arithmetic.
fn bonus_core(base_points: u32, num: u128, den: u128) -> (r: u32)
    requires
        den > 0,
        den <= 0xffff_ffff_ffff_ffff,
        num <= 100 * 0xffff_ffff_ffff_ffffnat,
    ensures
        r == cap_u32(bonus_points(base_points as nat, num as nat, den as nat)),
{
    let total: u128 = if num >= 90 * den {
        10 * (base_points as u128)
    } else {
        proof {
            assert((base_points as nat) * (10 * den + num) <= 0xffff_ffff * (100
                * 0xffff_ffff_ffff_ffffnat)) by (nonlinear_arith)
                requires
                    base_points <= 0xffff_ffff,
                    num < 90 * den,
                    den <= 0xffff_ffff_ffff_ffff,
            ;
        }
        (base_points as u128) * (10 * den + num) / (10 * den)
    };
    if total > u32::MAX as u128 {
        u32::MAX
    } else {
        total as u32
    }
}

/// Returns `base_points` scaled by the coverage bonus for a coverage of
/// `percent_num / percent_den` percent; the bonus is a tenth of the coverage,
/// at most 9, and the result is rounded down and capped at `u32::MAX`.
pub fn score_with_coverage_bonus(base_points: u32, percent_num: u64, percent_den: u64) -> (r: u32)
    requires
        percent_den > 0,
    ensures
        r == cap_u32(bonus_points(base_points as nat, percent_num as nat, percent_den as nat)),
{
    bonus_core(base_points, percent_num as u128, percent_den as u128)
}

/// Points for `base_points` when a snake of `snake_len` segments covers a
/// board of `total_cells` cells: coverage is `100 * snake_len / total_cells` percent.
pub fn coverage_award(base_points: u32, snake_len: usize, total_cells: usize) -> (r: u32)
    requires
        total_cells > 0,
    ensures
        r == cap_u32(bonus_points(base_points as nat, 100 * snake_len as nat, total_cells as nat)),
{
    bonus_core(base_points, 100 * (snake_len as u128), total_cells as u128)
}

/// Food after one tick of its timer: super food counts down and turns into
/// normal food when its countdown reaches zero.
pub open spec fn aged_food(f: Food) -> Food {
    match f.kind {
        FoodKind::Normal => f,
        FoodKind::Super { ticks_remaining: t } => if t <= 1 {
            Food { position: f.position, kind: FoodKind::Normal }
        } else {
            Food { position: f.position, kind: FoodKind::Super { ticks_remaining: (t - 1) as u32 } }
        },
    }
}

pub open spec fn aged_foods(foods: Seq<Food>) -> Seq<Food> {
    foods.map_values(|f: Food| aged_food(f))
}

/// Index of the first food at `p` (meaningful when there is one).
pub open spec fn first_food_at(foods: Seq<Food>, p: Position) -> int {
    choose|i: int|
        0 <= i < foods.len() && foods[i].position == p && forall|j: int|
            0 <= j < i ==> #[trigger] foods[j].position != p
}

pub open spec fn abs_diff(a: i32, b: i32) -> nat {
    if a >= b {
        (a - b) as nat
    } else {
        (b - a) as nat
    }
}

/// Countdown given to super food at `p`: its Manhattan distance from `head`, plus 10.
pub open spec fn super_ticks(head: Position, p: Position) -> nat {
    abs_diff(head.x, p.x) + abs_diff(head.y, p.y) + 10
}

/// A food item placed by a refill: on a cell free of the snake and of the
/// food placed before it; normal, or (when promotion is allowed) super food
/// with the countdown for its distance from the head.
pub open spec fn fresh_food(
    f: Food,
    earlier: Seq<Food>,
    bounds: GridSize,
    snake: Snake,
    may_promote: bool,
) -> bool {
    &&& is_free(f.position, bounds, &snake, earlier)
    &&& match f.kind {
        FoodKind::Normal => true,
        FoodKind::Super { ticks_remaining: t } => may_promote && t == super_ticks(
            snake.head_spec(),
            f.position,
        ),
    }
}

/// `after` is `before` brought to `target` items: cut down when over, else
/// extended by fresh food until the target is met or no free cell is left.
pub open spec fn refilled(
    before: Seq<Food>,
    after: Seq<Food>,
    target: nat,
    bounds: GridSize,
    snake: Snake,
    may_promote: bool,
) -> bool {
    if before.len() >= target {
        after == before.take(target as int)
    } else {
        &&& before.len() <= after.len() <= target
        &&& after.take(before.len() as int) == before
        &&& forall|i: int|
            before.len() <= i < after.len() ==> fresh_food(
                #[trigger] after[i],
                after.take(i),
                bounds,
                snake,
                may_promote,
            )
        &&& after.len() < target ==> forall|p: Position| !is_free(p, bounds, &snake, after)
    }
}

/// Cell where a new session's snake starts: the middle of the board.
pub open spec fn start_position(bounds: GridSize) -> Position {
    Position { x: (bounds.width / 2) as i32, y: (bounds.height / 2) as i32 }
}

/// `level` clamped to the selectable starting range.
pub open spec fn clamp_start_level(level: u32) -> u32 {
    if level < 1 {
        1
    } else if level > MAX_START_SPEED_LEVEL {
        MAX_START_SPEED_LEVEL
    } else {
        level
    }
}

/// `d` with each part raised to at least 1.
pub open spec fn normalize_density_spec(d: FoodDensity) -> FoodDensity {
    FoodDensity {
        foods_per: if d.foods_per >= 1 {
            d.foods_per
        } else {
            1
        },
        cells_per: if d.cells_per >= 1 {
            d.cells_per
        } else {
            1
        },
    }
}

/// Pause toggles between playing and paused; ended games stay ended.
pub open spec fn toggled(status: GameStatus) -> GameStatus {
    match status {
        GameStatus::Playing => GameStatus::Paused,
        GameStatus::Paused => GameStatus::Playing,
        other => other,
    }
}

/// Clamps a starting speed level to the selectable range.
fn clamp_start_speed(level: u32) -> (r: u32)
    ensures
        r == clamp_start_level(level),
{
    if level < 1 {
        1
    } else if level > MAX_START_SPEED_LEVEL {
        MAX_START_SPEED_LEVEL
    } else {
        level
    }
}

/// Complete mutable state of one session.
#[derive(Debug)]
pub struct GameState {
    pub snake: Snake,
    pub foods: Vec<Food>,
    pub score: u32,
    pub speed_level: u32,
    pub tick_count: u64,
    pub status: GameStatus,
    pub death_reason: Option<DeathReason>,
    pub glow: Option<GlowEffect>,
    pub elapsed_millis: u64,
    pub bounds: GridSize,
    pub base_speed_level: u32,
    pub food_density: FoodDensity,
    pub rng: StdRng,
}

impl GameState {
    /// The snake's segments lie on the board (an empty board holds only the
    /// starting cell), no growth is pending, and the density is normalized.
    pub open spec fn wf(self) -> bool {
        &&& self.snake.wf()
        &&& self.snake.pending() == 0
        &&& self.snake.head_spec().can_step()
        &&& self.bounds.cells() > 0 ==> forall|i: int|
            0 <= i < self.snake.body().len() ==> #[trigger] self.snake.body()[i].in_bounds(
                self.bounds,
            )
        &&& self.food_density.is_normalized()
    }

    /// What a fresh session on `bounds` looks like.
    pub open spec fn is_fresh(
        self,
        bounds: GridSize,
        starting_speed_level: u32,
        food_density: FoodDensity,
    ) -> bool {
        let density = normalize_density_spec(food_density);
        &&& self.wf()
        &&& self.bounds == bounds
        &&& self.base_speed_level == clamp_start_level(starting_speed_level)
        &&& self.speed_level == self.base_speed_level
        &&& self.food_density == density
        &&& self.score == 0
        &&& self.tick_count == 0
        &&& self.status == GameStatus::Playing
        &&& self.death_reason is None
        &&& self.glow is None
        &&& self.elapsed_millis == 0
        &&& self.snake.body() == seq![start_position(bounds)]
        &&& self.snake.dir() == Direction::Right
        &&& self.snake.buffered() == Direction::Right
        &&& self.snake.queued() is None
        &&& refilled(
            seq![],
            self.foods@,
            desired_count(bounds.cells(), 1, density),
            bounds,
            self.snake,
            false,
        )
    }

    /// Creates a state with a fresh random seed, starting speed 1 and the default density.
    pub fn new(bounds: GridSize) -> (r: GameState)
        ensures
            r.is_fresh(bounds, 1, FoodDensity { foods_per: 1, cells_per: 200 }),
    {
        let seed = fresh_seed();
        Self::new_with_seed_speed_and_food(bounds, seed, 1, default_food_density())
    }

    /// Creates a state with a fresh random seed and the given starting speed.
    pub fn new_with_options(bounds: GridSize, starting_speed_level: u32) -> (r: GameState)
        ensures
            r.is_fresh(bounds, starting_speed_level, FoodDensity { foods_per: 1, cells_per: 200 }),
    {
        Self::new_with_options_and_food_density(
            bounds,
            starting_speed_level,
            default_food_density(),
        )
    }

    /// Creates a state with a fresh random seed, the given starting speed and density.
    pub fn new_with_options_and_food_density(
        bounds: GridSize,
        starting_speed_level: u32,
        food_density: FoodDensity,
    ) -> (r: GameState)
        ensures
            r.is_fresh(bounds, starting_speed_level, food_density),
    {
        let seed = fresh_seed();
        Self::new_with_seed_speed_and_food(bounds, seed, starting_speed_level, food_density)
    }

    /// Creates a reproducible state from `seed`, with starting speed 1 and the default density.
    pub fn new_with_seed(bounds: GridSize, seed: u64) -> (r: GameState)
        ensures
            r.is_fresh(bounds, 1, FoodDensity { foods_per: 1, cells_per: 200 }),
    {
        Self::new_with_seed_speed_and_food(bounds, seed, 1, default_food_density())
    }

    /// Creates a reproducible state from `seed` with every option given.
    pub fn new_with_seed_speed_and_food(
        bounds: GridSize,
        seed: u64,
        starting_speed_level: u32,
        food_density: FoodDensity,
    ) -> (r: GameState)
        ensures
            r.is_fresh(bounds, starting_speed_level, food_density),
    {
        let rng = seeded_rng(seed);
        let base_speed_level = clamp_start_speed(starting_speed_level);
        let normalized_density = normalize_food_density(food_density);
        let start = Position { x: (bounds.width / 2) as i32, y: (bounds.height / 2) as i32 };
        let snake = Snake::new(start, Direction::Right);
        let foods: Vec<Food> = Vec::new();
        let mut state = GameState {
            snake,
            foods,
            score: 0,
            speed_level: base_speed_level,
            tick_count: 0,
            status: GameStatus::Playing,
            death_reason: None,
            glow: None,
            elapsed_millis: 0,
            bounds,
            base_speed_level,
            food_density: normalized_density,
            rng,
        };
        proof {
            if bounds.cells() > 0 {
                assert(bounds.width > 0 && bounds.height > 0) by (nonlinear_arith)
                    requires
                        bounds.cells() == (bounds.width as nat) * (bounds.height as nat),
                        bounds.cells() > 0,
                ;
            }
            assert(state.foods@ =~= seq![]);
        }
        state.sync_food_count_to_density();
        state
    }

    /// Glow after the per-tick decay: unchanged, or cleared once expired.
    pub open spec fn glow_decayed(before: Option<GlowEffect>, after: Option<GlowEffect>) -> bool {
        after == before || after is None
    }

    /// `t` is `s` after one `tick`.
    pub open spec fn tick_step(s: GameState, t: GameState) -> bool {
        if s.status != GameStatus::Playing {
            t == s
        } else {
            let nh = s.snake.next_head_spec();
            let aged = aged_foods(s.foods@);
            &&& t.bounds == s.bounds
            &&& t.base_speed_level == s.base_speed_level
            &&& t.food_density == s.food_density
            &&& t.elapsed_millis == s.elapsed_millis
            &&& t.tick_count == if s.tick_count < u64::MAX {
                (s.tick_count + 1) as u64
            } else {
                s.tick_count
            }
            &&& if !nh.in_bounds(s.bounds) {
                &&& t.status == GameStatus::GameOver
                &&& t.death_reason == Some(DeathReason::WallCollision)
                &&& t.snake == s.snake
                &&& t.foods@ == aged
                &&& t.score == s.score
                &&& t.speed_level == s.speed_level
                &&& Self::glow_decayed(s.glow, t.glow)
            } else {
                let eats = food_at(aged, nh);
                let idx = first_food_at(aged, nh);
                let growth: nat = if eats {
                    aged[idx].growth_spec()
                } else {
                    0
                };
                &&& Snake::moved(s.snake, t.snake, growth)
                &&& if t.snake.overlaps_spec() {
                    &&& t.status == GameStatus::GameOver
                    &&& t.death_reason == Some(DeathReason::SelfCollision)
                    &&& t.foods@ == aged
                    &&& t.score == s.score
                    &&& t.speed_level == s.speed_level
                    &&& Self::glow_decayed(s.glow, t.glow)
                } else if !eats {
                    &&& t.status == s.status
                    &&& t.death_reason == s.death_reason
                    &&& t.foods@ == aged
                    &&& t.score == s.score
                    &&& t.speed_level == s.speed_level
                    &&& Self::glow_decayed(s.glow, t.glow)
                } else {
                    let eaten = aged[idx];
                    let rest = aged.update(idx, aged.last()).drop_last();
                    let len = t.snake.body().len();
                    let total = s.bounds.cells();
                    let base = cap_u32(eaten.points_spec() * (s.speed_level as nat));
                    &&& t.score == cap_u32(
                        s.score as nat + cap_u32(bonus_points(base, 100 * len, total)),
                    )
                    &&& t.speed_level == level_for_length(s.base_speed_level as nat, len)
                    &&& if eaten.kind is Super {
                        t.glow matches Some(g) && g.trigger == GlowTrigger::SuperFoodEaten
                    } else if t.speed_level > s.speed_level {
                        t.glow matches Some(g) && g.trigger == GlowTrigger::SpeedLevelUp
                    } else {
                        Self::glow_decayed(s.glow, t.glow)
                    }
                    &&& if len >= total {
                        &&& t.status == GameStatus::Victory
                        &&& t.death_reason is None
                        &&& t.foods@ == rest
                    } else {
                        &&& t.status == s.status
                        &&& t.death_reason == s.death_reason
                        &&& refilled(
                            rest,
                            t.foods@,
                            desired_count(total, len, s.food_density),
                            s.bounds,
                            t.snake,
                            t.tick_count > 0,
                        )
                    }
                }
            }
        }
    }

    /// Advances the simulation by one step; does nothing unless `Playing`.
    /// Order: count the tick, let the glow decay, age food timers, stop at the
    /// wall, eat and grow, move, stop on self collision, then score, level up,
    /// check for victory and refill food.
    #[verifier::rlimit(50)]
    pub fn tick(&mut self)
        requires
            old(self).wf(),
        ensures
            final(self).wf(),
            Self::tick_step(*old(self), *final(self)),
    {
        if self.status != GameStatus::Playing {
            return;
        }
        let ghost s0 = *self;
        self.tick_count = if self.tick_count < u64::MAX {
            self.tick_count + 1
        } else {
            self.tick_count
        };
        match self.glow {
            Some(g) => {
                if !g.is_active() {
                    self.glow = None;
                }
            },
            None => {},
        }
        self.age_foods();
        let ghost glow1 = self.glow;
        assert(Self::glow_decayed(s0.glow, glow1));

        let next_head = self.snake.next_head_position();
        assert(next_head == s0.snake.next_head_spec());
        if !next_head.is_within_bounds(self.bounds) {
            self.status = GameStatus::GameOver;
            self.death_reason = Some(DeathReason::WallCollision);
            return;
        }
        proof {
            assert(self.bounds.cells() > 0) by (nonlinear_arith)
                requires
                    self.bounds.cells() == (self.bounds.width as nat) * (self.bounds.height as nat),
                    self.bounds.width > 0,
                    self.bounds.height > 0,
            ;
        }

        let eaten_idx = first_food_index(self.foods.as_slice(), next_head);
        let growth: u32 = match eaten_idx {
            Some(i) => self.foods[i].growth(),
            None => 0,
        };
        let ghost before = self.snake;
        self.snake.grow_by(growth);
        self.snake.move_forward(self.bounds);
        proof {
            crate::snake::lemma_moved_body_len(before.body(), next_head, growth as nat);
            assert forall|i: int|
                0 <= i < self.snake.body().len() implies #[trigger] self.snake.body()[i].in_bounds(
                self.bounds,
            ) by {
                if i > 0 {
                    let k = choose|k: int|
                        0 <= k < before.body().len() && before.body()[k] == self.snake.body()[i];
                    assert(before.body()[k].in_bounds(self.bounds));
                }
            }
        }

        assert(Snake::moved(s0.snake, self.snake, growth as nat));
        if self.snake.head_overlaps_body() {
            self.status = GameStatus::GameOver;
            self.death_reason = Some(DeathReason::SelfCollision);
            return;
        }

        match eaten_idx {
            None => {},
            Some(idx) => {
                self.eat_food(idx);
            },
        }
    }

    /// Removes the eaten food at `idx`, awards its points with the coverage
    /// bonus, recomputes the level, arms a glow, and then either declares
    /// victory on a full board or refills food.
    fn eat_food(&mut self, idx: usize)
        requires
            old(self).wf(),
            idx < old(self).foods@.len(),
            old(self).bounds.cells() > 0,
        ensures
            final(self).wf(),
            final(self).snake == old(self).snake,
            final(self).tick_count == old(self).tick_count,
            final(self).bounds == old(self).bounds,
            final(self).base_speed_level == old(self).base_speed_level,
            final(self).food_density == old(self).food_density,
            final(self).elapsed_millis == old(self).elapsed_millis,
            ({
                let s = *old(self);
                let t = *final(self);
                let eaten = s.foods@[idx as int];
                let rest = s.foods@.update(idx as int, s.foods@.last()).drop_last();
                let len = s.snake.body().len();
                let total = s.bounds.cells();
                let base = cap_u32(eaten.points_spec() * (s.speed_level as nat));
                &&& t.score == cap_u32(
                    s.score as nat + cap_u32(bonus_points(base, 100 * len, total)),
                )
                &&& t.speed_level == level_for_length(s.base_speed_level as nat, len)
                &&& if eaten.kind is Super {
                    t.glow matches Some(g) && g.trigger == GlowTrigger::SuperFoodEaten
                } else if t.speed_level > s.speed_level {
                    t.glow matches Some(g) && g.trigger == GlowTrigger::SpeedLevelUp
                } else {
                    t.glow == s.glow
                }
                &&& if len >= total {
                    &&& t.status == GameStatus::Victory
                    &&& t.death_reason is None
                    &&& t.foods@ == rest
                } else {
                    &&& t.status == s.status
                    &&& t.death_reason == s.death_reason
                    &&& refilled(
                        rest,
                        t.foods@,
                        desired_count(total, len, s.food_density),
                        s.bounds,
                        t.snake,
                        t.tick_count > 0,
                    )
                }
            }),
    {
        let ghost s = *self;
        let eaten = self.foods.swap_remove(idx);
        let points = eaten.points();
        let base_points: u32 = match points.checked_mul(self.speed_level) {
            Some(v) => v,
            None => u32::MAX,
        };
        assert(base_points == cap_u32(eaten.points_spec() * (s.speed_level as nat)));
        let awarded = coverage_award(base_points, self.snake.len(), self.bounds.total_cells());
        self.score = match self.score.checked_add(awarded) {
            Some(v) => v,
            None => u32::MAX,
        };
        assert(self.score == cap_u32(s.score as nat + awarded as nat));
        let prev_speed_level = self.speed_level;
        self.update_speed_level();
        if eaten.is_super() {
            self.glow = Some(GlowEffect::new(GlowTrigger::SuperFoodEaten));
        } else if self.speed_level > prev_speed_level {
            self.glow = Some(GlowEffect::new(GlowTrigger::SpeedLevelUp));
        }
        if self.snake.len() >= self.bounds.total_cells() {
            self.status = GameStatus::Victory;
            self.death_reason = None;
            return;
        }
        self.sync_food_count_to_density();
    }

    /// Runs every food timer one tick, turning expired super food into normal food.
    fn age_foods(&mut self)
        requires
            old(self).wf(),
        ensures
            final(self).wf(),
            Self::same_but_food(*old(self), *final(self)),
            final(self).foods@ == aged_foods(old(self).foods@),
    {
        let mut aged: Vec<Food> = Vec::new();
        let mut i: usize = 0;
        while i < self.foods.len()
            invariant
                i <= self.foods@.len(),
                aged@ == aged_foods(self.foods@).take(i as int),
            decreases self.foods@.len() - i,
        {
            let mut food = self.foods[i];
            if food.is_super() && !food.tick() {
                food.degrade();
            }
            aged.push(food);
            i = i + 1;
            assert(aged@ =~= aged_foods(self.foods@).take(i as int));
        }
        assert(aged@ =~= aged_foods(self.foods@));
        self.foods = aged;
    }

    /// Recomputes the speed level from the base level and the snake's length.
    pub fn update_speed_level(&mut self)
        ensures
            final(self).speed_level == level_for_length(
                old(self).base_speed_level as nat,
                old(self).snake.body().len(),
            ),
            *final(self) == (GameState {
                speed_level: level_for_length(
                    old(self).base_speed_level as nat,
                    old(self).snake.body().len(),
                ) as u32,
                ..*old(self)
            }),
    {
        self.speed_level = speed_level_for(self.base_speed_level, self.snake.len());
    }

    /// Resizes the board: wraps the snake into the new bounds, drops food
    /// that falls off the board or under the snake and food on a cell an
    /// earlier item holds, declares victory when the snake fills the board,
    /// and otherwise refills food.
    pub fn resize_bounds(&mut self, bounds: GridSize)
        requires
            old(self).wf(),
            bounds.width > 0,
            bounds.height > 0,
        ensures
            final(self).wf(),
            final(self).bounds == bounds,
            final(self).snake.body() == old(self).snake.body().map_values(
                |p: Position| crate::snake::wrap_spec(p, bounds),
            ),
            final(self).snake.dir() == old(self).snake.dir(),
            final(self).snake.buffered() == old(self).snake.buffered(),
            final(self).snake.queued() == old(self).snake.queued(),
            final(self).score == old(self).score,
            final(self).speed_level == old(self).speed_level,
            final(self).tick_count == old(self).tick_count,
            final(self).glow == old(self).glow,
            final(self).elapsed_millis == old(self).elapsed_millis,
            final(self).base_speed_level == old(self).base_speed_level,
            final(self).food_density == old(self).food_density,
            ({
                let kept = deduped(on_free_board(old(self).foods@, bounds, final(self).snake));
                let len = final(self).snake.body().len();
                if len >= bounds.cells() {
                    &&& final(self).status == GameStatus::Victory
                    &&& final(self).death_reason is None
                    &&& final(self).foods@ == kept
                } else {
                    &&& final(self).status == old(self).status
                    &&& final(self).death_reason == old(self).death_reason
                    &&& refilled(
                        kept,
                        final(self).foods@,
                        desired_count(bounds.cells(), len, old(self).food_density),
                        bounds,
                        final(self).snake,
                        old(self).tick_count > 0,
                    )
                }
            }),
    {
        self.bounds = bounds;
        self.snake.wrap_into_bounds(bounds);
        let mut kept: Vec<Food> = Vec::new();
        let mut i: usize = 0;
        while i < self.foods.len()
            invariant
                i <= self.foods@.len(),
                kept@ == on_free_board(self.foods@.take(i as int), bounds, self.snake),
            decreases self.foods@.len() - i,
        {
            let food = self.foods[i];
            assert(self.foods@.take(i + 1).drop_last() =~= self.foods@.take(i as int));
            if food.position.is_within_bounds(bounds) && !self.snake.occupies(food.position) {
                kept.push(food);
            }
            i = i + 1;
        }
        assert(self.foods@.take(i as int) =~= self.foods@);
        dedupe_food_positions(&mut kept);
        self.foods = kept;
        proof {
            assert(self.snake.body()[0].in_bounds(bounds));
        }
        if self.snake.len() >= self.bounds.total_cells() {
            self.status = GameStatus::Victory;
            self.death_reason = None;
            return;
        }
        self.sync_food_count_to_density();
    }

    /// Sets the food density (normalized) and refills food to match it.
    pub fn set_food_density(&mut self, food_density: FoodDensity)
        requires
            old(self).wf(),
        ensures
            final(self).wf(),
            final(self).food_density == normalize_density_spec(food_density),
            Self::same_but_food(
                GameState { food_density: normalize_density_spec(food_density), ..*old(self) },
                *final(self),
            ),
            refilled(
                old(self).foods@,
                final(self).foods@,
                desired_count(
                    old(self).bounds.cells(),
                    old(self).snake.body().len(),
                    normalize_density_spec(food_density),
                ),
                old(self).bounds,
                old(self).snake,
                old(self).tick_count > 0,
            ),
    {
        self.food_density = normalize_food_density(food_density);
        self.sync_food_count_to_density();
    }

    /// `t` is `s` after `apply_input(input)`.
    pub open spec fn input_step(s: GameState, input: GameInput, t: GameState) -> bool {
        match input {
            GameInput::Direction(d) => if s.status == GameStatus::Playing {
                t == GameState { snake: s.snake.buffer_spec(d), ..s }
            } else {
                t == s
            },
            GameInput::Pause => t == GameState { status: toggled(s.status), ..s },
            _ => t == s,
        }
    }

    /// Applies one input event: a direction is buffered while playing, pause
    /// toggles between playing and paused; everything else is left to the UI.
    pub fn apply_input(&mut self, input: GameInput)
        requires
            old(self).wf(),
        ensures
            final(self).wf(),
            Self::input_step(*old(self), input, *final(self)),
    {
        match input {
            GameInput::Direction(direction) => {
                if self.status == GameStatus::Playing {
                    self.snake.buffer_direction(direction);
                }
            },
            GameInput::Pause => {
                self.status = match self.status {
                    GameStatus::Playing => GameStatus::Paused,
                    GameStatus::Paused => GameStatus::Playing,
                    GameStatus::GameOver => GameStatus::GameOver,
                    GameStatus::Victory => GameStatus::Victory,
                };
            },
            _ => {},
        }
    }

    /// Sets the base speed (clamped to the selectable range) and the current
    /// speed to it, leaving the board as it is.
    pub fn set_base_speed_level(&mut self, level: u32)
        ensures
            *final(self) == (GameState {
                base_speed_level: clamp_start_level(level),
                speed_level: clamp_start_level(level),
                ..*old(self)
            }),
    {
        self.base_speed_level = clamp_start_speed(level);
        self.speed_level = self.base_speed_level;
    }

    /// Returns the active glow effect, if any.
    pub fn active_glow(&self) -> (r: Option<&GlowEffect>)
        ensures
            r is Some <==> self.glow is Some,
            r matches Some(g) ==> self.glow == Some(*g),
    {
        match &self.glow {
            Some(g) => Some(g),
            None => None,
        }
    }

    /// Returns the board's bounds.
    pub fn bounds(&self) -> (r: GridSize)
        ensures
            r == self.bounds,
    {
        self.bounds
    }

    /// Starts a new session with the same bounds, base speed and density and a fresh seed.
    pub fn restart(&self) -> (r: GameState)
        ensures
            r.is_fresh(self.bounds, self.base_speed_level, self.food_density),
    {
        Self::new_with_options_and_food_density(
            self.bounds,
            self.base_speed_level,
            self.food_density,
        )
    }

    /// True on the start screen: paused before any tick and any score.
    pub fn is_start_screen(&self) -> (r: bool)
        ensures
            r == on_start_screen(*self),
    {
        self.status == GameStatus::Paused && self.tick_count == 0 && self.score == 0
    }

    /// Adds `millis` of play time, saturating at `u64::MAX`.
    pub fn record_tick_millis(&mut self, millis: u128)
        ensures
            *final(self) == (GameState {
                elapsed_millis: if old(self).elapsed_millis + millis > u64::MAX {
                    u64::MAX
                } else {
                    (old(self).elapsed_millis + millis) as u64
                },
                ..*old(self)
            }),
    {
        let ms: u64 = if millis > u64::MAX as u128 {
            u64::MAX
        } else {
            millis as u64
        };
        self.elapsed_millis = match self.elapsed_millis.checked_add(ms) {
            Some(v) => v,
            None => u64::MAX,
        };
    }

    /// Adds the play time of one simulation step.
    pub fn record_tick_duration(&mut self, duration: Duration)
        ensures
            *final(self) == (GameState {
                elapsed_millis: if old(self).elapsed_millis + millis_in(duration) > u64::MAX {
                    u64::MAX
                } else {
                    (old(self).elapsed_millis + millis_in(duration)) as u64
                },
                ..*old(self)
            }),
    {
        let millis = whole_millis(&duration);
        self.record_tick_millis(millis);
    }

    /// Returns the play time accumulated from simulation steps.
    pub fn elapsed_duration(&self) -> (r: Duration)
        ensures
            millis_in(r) == self.elapsed_millis,
    {
        duration_of_millis(self.elapsed_millis)
    }

    /// Returns the live food count the density asks for now.
    pub fn calculated_food_count(&self) -> (r: usize)
        requires
            self.wf(),
        ensures
            r == desired_count(self.bounds.cells(), self.snake.body().len(), self.food_density),
    {
        desired_food_count(self.bounds, self.snake.len(), self.food_density)
    }

    /// Points of ordinary food before the coverage bonus: the speed level.
    pub fn ordinary_food_base_points(&self) -> (r: u32)
        ensures
            r == self.speed_level,
    {
        self.speed_level
    }

    /// Points ordinary food would award now, with the coverage bonus taken
    /// after it grows the snake by one segment (coverage never above 100%).
    pub fn ordinary_food_projected_points(&self) -> (r: u32)
        ensures
            r == if self.bounds.cells() == 0 {
                self.speed_level as nat
            } else {
                let projected = if self.snake.body().len() + 1 < self.bounds.cells() {
                    self.snake.body().len() + 1
                } else {
                    self.bounds.cells()
                };
                cap_u32(bonus_points(self.speed_level as nat, 100 * projected, self.bounds.cells()))
            },
    {
        let total = self.bounds.total_cells();
        if total == 0 {
            return self.speed_level;
        }
        let len = self.snake.len();
        let projected: usize = if len < total - 1 {
            len + 1
        } else {
            total
        };
        coverage_award(self.speed_level, projected, total)
    }

    /// All fields but the food list and the generator agree.
    pub open spec fn same_but_food(a: GameState, b: GameState) -> bool {
        &&& a.snake == b.snake
        &&& a.score == b.score
        &&& a.speed_level == b.speed_level
        &&& a.tick_count == b.tick_count
        &&& a.status == b.status
        &&& a.death_reason == b.death_reason
        &&& a.glow == b.glow
        &&& a.elapsed_millis == b.elapsed_millis
        &&& a.bounds == b.bounds
        &&& a.base_speed_level == b.base_speed_level
        &&& a.food_density == b.food_density
    }

    /// Brings the food list to the count the density asks for: cuts it down,
    /// or spawns food on free cells until the target or a full board. After
    /// the first tick each new item becomes super food with a 30% chance.
    pub fn sync_food_count_to_density(&mut self)
        requires
            old(self).wf(),
        ensures
            final(self).wf(),
            Self::same_but_food(*old(self), *final(self)),
            refilled(
                old(self).foods@,
                final(self).foods@,
                desired_count(
                    old(self).bounds.cells(),
                    old(self).snake.body().len(),
                    old(self).food_density,
                ),
                old(self).bounds,
                old(self).snake,
                old(self).tick_count > 0,
            ),
    {
        let target = desired_food_count(self.bounds, self.snake.len(), self.food_density);
        if self.foods.len() >= target {
            self.foods.truncate(target);
            return;
        }
        let ghost before = self.foods@;
        loop
            invariant
                self.wf(),
                Self::same_but_food(*old(self), *self),
                before == old(self).foods@,
                before.len() < target,
                target == desired_count(
                    self.bounds.cells(),
                    self.snake.body().len(),
                    self.food_density,
                ),
                before.len() <= self.foods@.len() <= target,
                self.foods@.take(before.len() as int) == before,
                forall|i: int|
                    before.len() <= i < self.foods@.len() ==> fresh_food(
                        #[trigger] self.foods@[i],
                        self.foods@.take(i),
                        self.bounds,
                        self.snake,
                        self.tick_count > 0,
                    ),
            ensures
                self.wf(),
                Self::same_but_food(*old(self), *self),
                before.len() <= self.foods@.len() <= target,
                self.foods@.take(before.len() as int) == before,
                forall|i: int|
                    before.len() <= i < self.foods@.len() ==> fresh_food(
                        #[trigger] self.foods@[i],
                        self.foods@.take(i),
                        self.bounds,
                        self.snake,
                        self.tick_count > 0,
                    ),
                self.foods@.len() < target ==> forall|p: Position|
                    !is_free(p, self.bounds, &self.snake, self.foods@),
            decreases target - self.foods@.len(),
        {
            if self.foods.len() >= target {
                break;
            }
            let spawned = spawn_food_avoiding(
                &mut self.rng,
                self.bounds,
                &self.snake,
                self.foods.as_slice(),
            );
            match spawned {
                None => {
                    break;
                },
                Some(food) => {
                    let mut food = food;
                    if self.tick_count > 0 && gen_below(&mut self.rng, 100) < 30 {
                        let head = self.snake.head();
                        proof {
                            if self.bounds.cells() == 0 {
                                assert(!food.position.in_bounds(self.bounds)) by (nonlinear_arith)
                                    requires
                                        self.bounds.cells() == (self.bounds.width as nat) * (
                                        self.bounds.height as nat),
                                        self.bounds.cells() == 0,
                                ;
                            }
                            assert(self.snake.body()[0].in_bounds(self.bounds));
                        }
                        let dx: u32 = if head.x >= food.position.x {
                            (head.x - food.position.x) as u32
                        } else {
                            (food.position.x - head.x) as u32
                        };
                        let dy: u32 = if head.y >= food.position.y {
                            (head.y - food.position.y) as u32
                        } else {
                            (food.position.y - head.y) as u32
                        };
                        food = Food::new_super(food.position, dx + dy + 10);
                    }
                    let ghost prev = self.foods@;
                    self.foods.push(food);
                    proof {
                        assert(self.foods@.take(prev.len() as int) =~= prev);
                        assert(prev.take(before.len() as int) =~= before);
                        assert(self.foods@.take(before.len() as int) =~= before);
                        assert forall|i: int|
                            before.len() <= i < self.foods@.len() implies fresh_food(
                            #[trigger] self.foods@[i],
                            self.foods@.take(i),
                            self.bounds,
                            self.snake,
                            self.tick_count > 0,
                        ) by {
                            if i < prev.len() {
                                assert(self.foods@.take(i) =~= prev.take(i));
                                assert(self.foods@[i] == prev[i]);
                            }
                        }
                    }
                },
            }
        }
    }
}


/// Food of `foods` that lies on the board and off the snake, in order.
pub open spec fn on_free_board(foods: Seq<Food>, bounds: GridSize, snake: Snake) -> Seq<Food>
    decreases foods.len(),
{
    if foods.len() == 0 {
        seq![]
    } else {
        let prev = on_free_board(foods.drop_last(), bounds, snake);
        let f = foods.last();
        if f.position.in_bounds(bounds) && !snake.occupies_spec(f.position) {
            prev.push(f)
        } else {
            prev
        }
    }
}

/// `foods` keeping only the first item at each position, in order.
pub open spec fn deduped(foods: Seq<Food>) -> Seq<Food>
    decreases foods.len(),
{
    if foods.len() == 0 {
        seq![]
    } else {
        let prev = deduped(foods.drop_last());
        if food_at(prev, foods.last().position) {
            prev
        } else {
            prev.push(foods.last())
        }
    }
}

/// Removes every food item whose position an earlier item already holds.
pub fn dedupe_food_positions(foods: &mut Vec<Food>)
    ensures
        final(foods)@ == deduped(old(foods)@),
{
    let mut unique: Vec<Food> = Vec::new();
    let mut i: usize = 0;
    while i < foods.len()
        invariant
            i <= foods@.len(),
            unique@ == deduped(foods@.take(i as int)),
        decreases foods@.len() - i,
    {
        let food = foods[i];
        assert(foods@.take(i + 1).drop_last() =~= foods@.take(i as int));
        if !food_at_position(unique.as_slice(), food.position) {
            unique.push(food);
        }
        i = i + 1;
    }
    assert(foods@.take(i as int) =~= foods@);
    *foods = unique;
}

/// Index of the first food at `p`, if any.
pub fn first_food_index(foods: &[Food], p: Position) -> (r: Option<usize>)
    ensures
        r is None <==> !food_at(foods@, p),
        r matches Some(i) ==> i < foods@.len() && i == first_food_at(foods@, p),
{
    let mut i: usize = 0;
    while i < foods.len()
        invariant
            i <= foods@.len(),
            forall|j: int| 0 <= j < i ==> #[trigger] foods@[j].position != p,
        decreases foods@.len() - i,
    {
        if foods[i].position == p {
            proof {
                let j = first_food_at(foods@, p);
                assert(foods@[i as int].position == p);
                if j < i {
                    assert(foods@[j].position != p);
                }
                if j > i {
                    assert(foods@[i as int].position != p);
                }
            }
            return Some(i);
        }
        i = i + 1;
    }
    None
}

/// Start screen: paused before any tick and any score.
pub open spec fn on_start_screen(s: GameState) -> bool {
    s.status == GameStatus::Paused && s.tick_count == 0 && s.score == 0
}

/// Applies an input at the session level. `Confirm` starts play from the
/// start screen, and after a game has ended replaces it with a fresh session
/// waiting on its start screen; every other input goes to `apply_input`.
pub fn handle_input(state: &mut GameState, input: GameInput)
    requires
        old(state).wf(),
    ensures
        final(state).wf(),
        input == GameInput::Confirm && on_start_screen(*old(state)) ==> *final(state) == (GameState {
            status: GameStatus::Playing,
            ..*old(state)
        }),
        input == GameInput::Confirm && !on_start_screen(*old(state)) && (old(state).status
            == GameStatus::GameOver || old(state).status == GameStatus::Victory) ==> {
            &&& final(state).status == GameStatus::Paused
            &&& (GameState { status: GameStatus::Playing, ..*final(state) }).is_fresh(
                old(state).bounds,
                old(state).base_speed_level,
                old(state).food_density,
            )
        },
        !(input == GameInput::Confirm && (on_start_screen(*old(state)) || old(state).status
            == GameStatus::GameOver || old(state).status == GameStatus::Victory))
            ==> GameState::input_step(*old(state), input, *final(state)),
{
    if input == GameInput::Confirm && state.is_start_screen() {
        state.status = GameStatus::Playing;
    } else if input == GameInput::Confirm && (state.status == GameStatus::GameOver
        || state.status == GameStatus::Victory) {
        let mut fresh = state.restart();
        fresh.status = GameStatus::Paused;
        *state = fresh;
    } else {
        state.apply_input(input);
    }
}

/// Aging keeps every position, so the first food at a cell stays the same item.
proof fn lemma_aging_keeps_first_food(foods: Seq<Food>, p: Position)
    ensures
        food_at(aged_foods(foods), p) == food_at(foods, p),
        food_at(foods, p) ==> first_food_at(aged_foods(foods), p) == first_food_at(foods, p),
{
    let aged = aged_foods(foods);
    assert forall|i: int| 0 <= i < foods.len() implies #[trigger] aged[i].position
        == foods[i].position by {}
    if food_at(foods, p) {
        let w = choose|i: int| 0 <= i < foods.len() && #[trigger] foods[i].position == p;
        let m = choose|i: int|
            0 <= i < foods.len() && foods[i].position == p && forall|j: int|
                0 <= j < i ==> #[trigger] foods[j].position != p;
        lemma_first_exists(foods, p, w);
        let a = first_food_at(aged, p);
        assert(aged[m].position == p);
        assert forall|j: int| 0 <= j < m implies #[trigger] aged[j].position != p by {
            assert(foods[j].position != p);
        }
        if a < m {
            assert(foods[a].position == p);
        }
        if a > m {
            assert(aged[m].position != p);
        }
    }
    if food_at(aged, p) {
        let w = choose|i: int| 0 <= i < aged.len() && #[trigger] aged[i].position == p;
        assert(foods[w].position == p);
    }
}

/// Where some food lies at `p`, a first one does.
proof fn lemma_first_exists(foods: Seq<Food>, p: Position, w: int)
    requires
        0 <= w < foods.len(),
        foods[w].position == p,
    ensures
        exists|i: int|
            0 <= i < foods.len() && foods[i].position == p && forall|j: int|
                0 <= j < i ==> #[trigger] foods[j].position != p,
    decreases w,
{
    if exists|j: int| 0 <= j < w && #[trigger] foods[j].position == p {
        let j = choose|j: int| 0 <= j < w && #[trigger] foods[j].position == p;
        lemma_first_exists(foods, p, j);
    } else {
        assert(forall|j: int| 0 <= j < w ==> #[trigger] foods[j].position != p);
    }
}

/// Growth conservation: a tick from `Playing` never shortens the snake, and
/// eating food of growth `g` lengthens it by exactly `g`.
pub proof fn growth_conservation(s: GameState, t: GameState)
    requires
        s.wf(),
        s.status == GameStatus::Playing,
        GameState::tick_step(s, t),
    ensures
        t.snake.body().len() >= s.snake.body().len(),
        ({
            let nh = s.snake.next_head_spec();
            let aged = aged_foods(s.foods@);
            nh.in_bounds(s.bounds) && food_at(aged, nh) ==> t.snake.body().len()
                == s.snake.body().len() + aged[first_food_at(aged, nh)].growth_spec()
        }),
        ({
            let nh = s.snake.next_head_spec();
            nh.in_bounds(s.bounds) && !food_at(aged_foods(s.foods@), nh) ==> t.snake.body().len()
                == s.snake.body().len()
        }),
{
    let nh = s.snake.next_head_spec();
    let aged = aged_foods(s.foods@);
    if nh.in_bounds(s.bounds) {
        let growth: nat = if food_at(aged, nh) {
            aged[first_food_at(aged, nh)].growth_spec()
        } else {
            0
        };
        crate::snake::lemma_moved_body_len(s.snake.body(), nh, growth);
    }
}

/// Food needed to climb from level `from` to level `to`.
pub open spec fn level_cost(from: nat, to: nat) -> nat
    decreases to - from,
{
    if to <= from {
        0
    } else {
        food_required(from) + level_cost(from + 1, to)
    }
}

/// Tiered levels: the level reached from `level` with `remaining` food is the
/// largest level whose total cost fits in `remaining` (up to `u32::MAX`).
pub proof fn tiered_level_is_largest_affordable(level: nat, remaining: nat)
    requires
        level <= u32::MAX,
    ensures
        level <= level_after(level, remaining) <= u32::MAX,
        level_cost(level, level_after(level, remaining)) <= remaining,
        level_after(level, remaining) < u32::MAX ==> remaining < level_cost(
            level,
            level_after(level, remaining) + 1,
        ),
    decreases remaining,
{
    if remaining < food_required(level) || level >= u32::MAX {
        assert(level_cost(level + 1, level + 1) == 0);
        assert(level_cost(level, level) == 0);
    } else {
        let rest = (remaining - food_required(level)) as nat;
        tiered_level_is_largest_affordable(level + 1, rest);
        let l = level_after(level + 1, rest);
        assert(level_after(level, remaining) == l);
        assert(level_cost(level, l) == food_required(level) + level_cost(level + 1, l));
        assert(level_cost(level, l + 1) == food_required(level) + level_cost(level + 1, l + 1));
    }
}

/// Growth by the eaten item: eating food that is not super food on its last
/// tick lengthens the snake by that food's growth (super food on its last
/// tick turns normal before it is eaten).
pub proof fn growth_by_eaten_food(s: GameState, t: GameState)
    requires
        s.wf(),
        s.status == GameStatus::Playing,
        GameState::tick_step(s, t),
        s.snake.next_head_spec().in_bounds(s.bounds),
        food_at(s.foods@, s.snake.next_head_spec()),
        !(s.foods@[first_food_at(s.foods@, s.snake.next_head_spec())].kind matches FoodKind::Super {
            ticks_remaining,
        } && ticks_remaining <= 1),
    ensures
        t.snake.body().len() == s.snake.body().len() + s.foods@[first_food_at(
            s.foods@,
            s.snake.next_head_spec(),
        )].growth_spec(),
{
    let nh = s.snake.next_head_spec();
    let aged = aged_foods(s.foods@);
    lemma_aging_keeps_first_food(s.foods@, nh);
    let idx = first_food_at(s.foods@, nh);
    assert(0 <= idx < s.foods@.len()) by {
        let w = choose|i: int| 0 <= i < s.foods@.len() && #[trigger] s.foods@[i].position == nh;
        lemma_first_exists(s.foods@, nh, w);
    }
    assert(aged[idx] == aged_food(s.foods@[idx]));
    assert(aged[idx].growth_spec() == s.foods@[idx].growth_spec());
    growth_conservation(s, t);
}

/// Wall collision: a snake whose head is on the last column and whose next
/// move goes right ends the game against the wall.
pub proof fn wall_collision(s: GameState, t: GameState)
    requires
        s.wf(),
        s.status == GameStatus::Playing,
        s.snake.head_spec().x == s.bounds.width - 1,
        s.snake.buffered() == Direction::Right,
        GameState::tick_step(s, t),
    ensures
        t.status == GameStatus::GameOver,
        t.death_reason == Some(DeathReason::WallCollision),
{
}

/// Victory: a tick that grows the snake to the size of the board, moving
/// onto a cell its body does not hold, ends in victory with no death reason.
pub proof fn victory_when_board_filled(s: GameState, t: GameState)
    requires
        s.wf(),
        s.status == GameStatus::Playing,
        s.snake.body().len() < s.bounds.cells(),
        t.snake.body().len() >= s.bounds.cells(),
        !s.snake.occupies_spec(s.snake.next_head_spec()),
        GameState::tick_step(s, t),
    ensures
        t.status == GameStatus::Victory,
        t.death_reason is None,
{
    growth_conservation(s, t);
    let nh = s.snake.next_head_spec();
    if nh.in_bounds(s.bounds) {
        let aged = aged_foods(s.foods@);
        let growth: nat = if food_at(aged, nh) {
            aged[first_food_at(aged, nh)].growth_spec()
        } else {
            0
        };
        crate::snake::lemma_moved_body_len(s.snake.body(), nh, growth);
        assert(!t.snake.overlaps_spec()) by {
            if t.snake.overlaps_spec() {
                let i = choose|i: int|
                    1 <= i < t.snake.body().len() && t.snake.body()[i] == t.snake.head_spec();
                assert(s.snake.body().contains(t.snake.body()[i]));
            }
        }
    }
}

/// Self collision: moving onto a body segment that is not the tail (the tail
/// cell is vacated by the same move) ends the game with a self collision.
pub proof fn self_collision(s: GameState, t: GameState, k: int)
    requires
        s.wf(),
        s.status == GameStatus::Playing,
        s.snake.next_head_spec().in_bounds(s.bounds),
        0 <= k < s.snake.body().len() - 1,
        s.snake.body()[k] == s.snake.next_head_spec(),
        GameState::tick_step(s, t),
    ensures
        t.status == GameStatus::GameOver,
        t.death_reason == Some(DeathReason::SelfCollision),
{
    let m = t.snake.body();
    assert(m[k + 1] == s.snake.body()[k]);
    assert(t.snake.overlaps_spec());
}

/// Turning at the boundary: with no turn queued, a turn that does not
/// reverse the snake, requested before the next tick, toward a cell on the
/// board that the body does not hold, keeps the snake alive through that tick.
pub proof fn turn_before_wall_survives(
    s0: GameState,
    d: Direction,
    s1: GameState,
    s2: GameState,
)
    requires
        s0.wf(),
        s0.status == GameStatus::Playing,
        s0.snake.buffered() == s0.snake.dir(),
        d != s0.snake.dir().opposite(),
        crate::snake::step(s0.snake.head_spec(), d).in_bounds(s0.bounds),
        !s0.snake.occupies_spec(crate::snake::step(s0.snake.head_spec(), d)),
        GameState::input_step(s0, GameInput::Direction(d), s1),
        GameState::tick_step(s1, s2),
    ensures
        s2.status != GameStatus::GameOver,
{
    crate::snake::lemma_buffer_first_turn(s0.snake, d);
    let nh = s1.snake.next_head_spec();
    assert(nh == crate::snake::step(s0.snake.head_spec(), d));
    let aged = aged_foods(s1.foods@);
    let growth: nat = if food_at(aged, nh) {
        aged[first_food_at(aged, nh)].growth_spec()
    } else {
        0
    };
    crate::snake::lemma_moved_body_len(s1.snake.body(), nh, growth);
    assert(!s2.snake.overlaps_spec()) by {
        if s2.snake.overlaps_spec() {
            let i = choose|i: int|
                1 <= i < s2.snake.body().len() && s2.snake.body()[i] == s2.snake.head_spec();
            assert(s1.snake.body().contains(s2.snake.body()[i]));
        }
    }
}

/// Pausing twice in a row gives back the state before the first pause.
pub proof fn pause_twice_restores(s0: GameState, s1: GameState, s2: GameState)
    requires
        GameState::input_step(s0, GameInput::Pause, s1),
        GameState::input_step(s1, GameInput::Pause, s2),
    ensures
        s2.status == s0.status,
        s2 == s0,
{
}

} // verus!
