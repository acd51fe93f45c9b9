use std::time::Duration;
use terminal_snake::config::{GridSize, MAX_START_SPEED_LEVEL};
use terminal_snake::food::{Food, FoodKind};
use terminal_snake::game::{
    dedupe_food_positions, default_food_density, desired_food_count, normalize_food_density,
    score_with_coverage_bonus, speed_level_for, DeathReason, FoodDensity, GameState, GameStatus,
    GlowTrigger,
};
use terminal_snake::input::{Direction, GameInput};
use terminal_snake::snake::{Position, Snake};

#[test]
fn snake_grows_after_eating_food() {
    let mut state = GameState::new_with_seed(
        GridSize {
            width: 10,
            height: 10,
        },
        1,
    );
    state.snake = Snake::new(Position { x: 1, y: 1 }, Direction::Right);
    state.foods = vec![Food::new(Position { x: 2, y: 1 })];

    state.tick();
    // A new snake has one segment; ordinary food adds one more.
    assert_eq!(state.snake.len(), 2);
    assert_eq!(state.status, GameStatus::Playing);
}

#[test]
fn snake_collision_with_wall_sets_game_over() {
    let mut state = GameState::new_with_seed(
        GridSize {
            width: 4,
            height: 4,
        },
        2,
    );
    state.snake = Snake::new(Position { x: 3, y: 1 }, Direction::Right);

    state.tick();

    assert_eq!(state.status, GameStatus::GameOver);
    assert_eq!(state.death_reason, Some(DeathReason::WallCollision));
}

#[test]
fn snake_collision_with_self_sets_game_over() {
    let mut state = GameState::new_with_seed(
        GridSize {
            width: 6,
            height: 6,
        },
        3,
    );
    state.snake = Snake::from_segments(
        vec![
            Position { x: 2, y: 2 },
            Position { x: 1, y: 2 },
            Position { x: 1, y: 3 },
            Position { x: 2, y: 3 },
            Position { x: 3, y: 3 },
            Position { x: 3, y: 2 },
        ],
        Direction::Left,
    )
    .expect("test snake segments should be valid");

    state.tick();

    assert_eq!(state.status, GameStatus::GameOver);
    assert_eq!(state.death_reason, Some(DeathReason::SelfCollision));
}

#[test]
fn score_increments_when_food_is_eaten() {
    let mut state = GameState::new_with_seed(
        GridSize {
            width: 10,
            height: 10,
        },
        4,
    );
    state.snake = Snake::new(Position { x: 5, y: 5 }, Direction::Right);
    state.foods = vec![Food::new(Position { x: 6, y: 5 })];

    state.tick();

    assert_eq!(state.score, 1);
    assert_eq!(state.speed_level, 1);
}

#[test]
fn starting_speed_level_is_respected() {
    let state = GameState::new_with_options(
        GridSize {
            width: 10,
            height: 10,
        },
        3,
    );
    assert_eq!(state.speed_level, 3);
}

#[test]
fn starting_speed_level_is_clamped_to_max() {
    let state = GameState::new_with_options(
        GridSize {
            width: 10,
            height: 10,
        },
        MAX_START_SPEED_LEVEL + 5,
    );
    assert_eq!(state.speed_level, MAX_START_SPEED_LEVEL);
}

#[test]
fn player_can_turn_at_last_cell_before_wall() {
    let bounds = GridSize {
        width: 10,
        height: 10,
    };
    let mut state = GameState::new_with_seed(bounds, 10);
    state.snake = Snake::new(Position { x: 8, y: 5 }, Direction::Right);
    state.foods = vec![Food::new(Position { x: 0, y: 0 })];

    state.tick();
    assert_eq!(state.status, GameStatus::Playing);
    assert_eq!(state.snake.head(), Position { x: 9, y: 5 });

    state.apply_input(GameInput::Direction(Direction::Down));

    state.tick();
    assert_eq!(state.status, GameStatus::Playing);
    assert_eq!(state.snake.head(), Position { x: 9, y: 6 });
}

#[test]
fn player_can_reach_top_row_and_turn() {
    let bounds = GridSize {
        width: 10,
        height: 10,
    };
    let mut state = GameState::new_with_seed(bounds, 10);
    state.snake = Snake::new(Position { x: 5, y: 1 }, Direction::Up);
    state.foods = vec![Food::new(Position { x: 9, y: 9 })];

    state.tick();
    assert_eq!(state.status, GameStatus::Playing);
    assert_eq!(state.snake.head(), Position { x: 5, y: 0 });

    state.apply_input(GameInput::Direction(Direction::Right));

    state.tick();
    assert_eq!(state.status, GameStatus::Playing);
    assert_eq!(state.snake.head(), Position { x: 6, y: 0 });
}

#[test]
fn player_can_reach_bottom_row_and_turn() {
    let bounds = GridSize {
        width: 10,
        height: 10,
    };
    let mut state = GameState::new_with_seed(bounds, 10);
    state.snake = Snake::new(Position { x: 5, y: 8 }, Direction::Down);
    state.foods = vec![Food::new(Position { x: 9, y: 0 })];

    state.tick();
    assert_eq!(state.status, GameStatus::Playing);
    assert_eq!(state.snake.head(), Position { x: 5, y: 9 });

    state.apply_input(GameInput::Direction(Direction::Right));

    state.tick();
    assert_eq!(state.status, GameStatus::Playing);
    assert_eq!(state.snake.head(), Position { x: 6, y: 9 });
}

#[test]
fn score_multiplied_by_speed_level() {
    let mut state = GameState::new_with_seed(
        GridSize {
            width: 20,
            height: 20,
        },
        42,
    );
    state.set_base_speed_level(3);
    state.snake = Snake::new(Position { x: 5, y: 5 }, Direction::Right);
    state.foods = vec![Food::new(Position { x: 6, y: 5 })];

    state.tick();

    assert_eq!(state.score, 3, "score should be 1 * speed_level(3)");
}

#[test]
fn coverage_bonus_increases_points() {
    let base_points = 10;
    let points = score_with_coverage_bonus(base_points, 10, 1);
    assert_eq!(points, 20, "10 base with 10% coverage should be 2x");
}

#[test]
fn coverage_bonus_is_capped() {
    let base_points = 10;
    let points = score_with_coverage_bonus(base_points, 100, 1);
    assert_eq!(
        points, 100,
        "bonus cap of 9.0 should limit total to 10x base"
    );
}

#[test]
fn level_progression_uses_tiered_food_thresholds() {
    let bounds = GridSize {
        width: 500,
        height: 200,
    };
    let mut state = GameState::new_with_seed_speed_and_food(
        bounds,
        55,
        1,
        FoodDensity {
            foods_per: 1,
            cells_per: usize::MAX,
        },
    );

    let cases = [
        (5, 1),
        (6, 2),
        (13, 3),
        (31, 5),
        (41, 6),
        (58, 7),
        (150, 11),
        (205, 12),
    ];

    for (food_eaten, expected_level) in cases {
        let len = (food_eaten + 2) as i32;
        let segments = (0..len)
            .map(|i| Position { x: 300 - i, y: 10 })
            .collect::<Vec<_>>();
        state.snake = Snake::from_segments(segments, Direction::Right)
            .expect("snake segments should be valid");

        state.update_speed_level();

        assert_eq!(
            state.speed_level, expected_level,
            "food_eaten={food_eaten} should yield level {expected_level}"
        );
    }
}

#[test]
fn speed_level_continues_past_starting_speed_cap() {
    let mut state = GameState::new_with_seed_speed_and_food(
        GridSize {
            width: 200,
            height: 200,
        },
        99,
        MAX_START_SPEED_LEVEL,
        FoodDensity {
            foods_per: 1,
            cells_per: usize::MAX,
        },
    );
    let segments = (0..77)
        .map(|i| Position { x: 90 - i, y: 10 })
        .collect::<Vec<_>>();
    state.snake = Snake::from_segments(segments, Direction::Right)
        .expect("snake segments should be valid");
    state.foods = vec![Food::new(Position { x: 91, y: 10 })];

    state.tick();

    assert_eq!(state.speed_level, MAX_START_SPEED_LEVEL + 1);
    assert_eq!(state.score, MAX_START_SPEED_LEVEL);
    assert_eq!(
        state.active_glow().map(|g| g.trigger),
        Some(GlowTrigger::SpeedLevelUp)
    );
}

#[test]
fn scoring_uses_levels_beyond_fifteen() {
    let mut state = GameState::new_with_seed_speed_and_food(
        GridSize {
            width: 200,
            height: 200,
        },
        101,
        MAX_START_SPEED_LEVEL,
        FoodDensity {
            foods_per: 1,
            cells_per: usize::MAX,
        },
    );
    let segments = (0..77)
        .map(|i| Position { x: 90 - i, y: 10 })
        .collect::<Vec<_>>();
    state.snake = Snake::from_segments(segments, Direction::Right)
        .expect("snake segments should be valid");
    state.foods = vec![Food::new(Position { x: 91, y: 10 })];

    state.tick();
    assert_eq!(state.speed_level, MAX_START_SPEED_LEVEL + 1);
    assert_eq!(state.score, MAX_START_SPEED_LEVEL);

    state.foods = vec![Food::new(Position { x: 92, y: 10 })];
    state.tick();

    assert_eq!(state.speed_level, MAX_START_SPEED_LEVEL + 1);
    assert_eq!(state.score, (MAX_START_SPEED_LEVEL * 2) + 1);
}

#[test]
fn ordinary_food_base_points_tracks_speed_level() {
    let mut state = GameState::new_with_seed(
        GridSize {
            width: 8,
            height: 8,
        },
        17,
    );
    state.set_base_speed_level(4);

    assert_eq!(state.ordinary_food_base_points(), 4);
}

#[test]
fn ordinary_food_projected_points_include_coverage_bonus() {
    let mut state = GameState::new_with_seed(
        GridSize {
            width: 4,
            height: 4,
        },
        22,
    );
    state.set_base_speed_level(4);

    // Length 1 on 16 cells; ordinary food grows it to 2 => 12.5% coverage.
    // base=4, bonus=12.5 * 0.10 = 1.25, projected=floor(4 * 2.25)=9
    assert_eq!(state.ordinary_food_projected_points(), 9);
}

#[test]
fn stepwise_food_collection_and_wall_collision() {
    let mut state = GameState::new_with_seed(
        GridSize {
            width: 6,
            height: 4,
        },
        42,
    );

    state.set_base_speed_level(2);
    state.snake = Snake::new(Position { x: 1, y: 1 }, Direction::Right);
    state.foods = vec![Food::new(Position { x: 2, y: 1 })];

    state.tick();
    assert_eq!(state.status, GameStatus::Playing);
    // 2 points with a coverage of 2/24 cells: floor(2 * (1 + 0.8333)) = 3.
    assert_eq!(state.score, 3);
    assert_eq!(state.snake.len(), 2);
    assert_eq!(state.snake.head(), Position { x: 2, y: 1 });

    state.apply_input(GameInput::Direction(Direction::Up));
    state.tick();
    assert_eq!(state.status, GameStatus::Playing);
    assert_eq!(state.snake.head(), Position { x: 2, y: 0 });

    state.tick();
    assert_eq!(state.status, GameStatus::GameOver);
}

#[test]
fn pause_twice_restores_previous_status() {
    let mut state = GameState::new_with_seed(GridSize { width: 10, height: 10 }, 5);
    assert_eq!(state.status, GameStatus::Playing);
    state.apply_input(GameInput::Pause);
    assert_eq!(state.status, GameStatus::Paused);
    assert!(state.is_start_screen());
    state.apply_input(GameInput::Pause);
    assert_eq!(state.status, GameStatus::Playing);
    assert!(!state.is_start_screen());
}

#[test]
fn pause_is_ignored_after_game_over_and_directions_while_paused() {
    let mut state = GameState::new_with_seed(GridSize { width: 10, height: 10 }, 6);
    state.apply_input(GameInput::Pause);
    state.apply_input(GameInput::Direction(Direction::Up));
    state.apply_input(GameInput::Pause);
    assert_eq!(state.snake.next_buffered_direction(), None);
    state.snake = Snake::new(Position { x: 9, y: 0 }, Direction::Right);
    state.tick();
    assert_eq!(state.status, GameStatus::GameOver);
    state.apply_input(GameInput::Pause);
    assert_eq!(state.status, GameStatus::GameOver);
    let score = state.score;
    state.tick();
    assert_eq!(state.score, score);
}

#[test]
fn filling_the_board_is_victory() {
    let mut state = GameState::new_with_seed(GridSize { width: 2, height: 1 }, 7);
    state.snake = Snake::new(Position { x: 0, y: 0 }, Direction::Right);
    state.foods = vec![Food::new(Position { x: 1, y: 0 })];
    state.tick();
    assert_eq!(state.snake.len(), 2);
    assert_eq!(state.status, GameStatus::Victory);
    assert_eq!(state.death_reason, None);
    assert!(state.foods.is_empty());
}

#[test]
fn super_food_adds_five_segments_and_glows() {
    let mut state = GameState::new_with_seed(GridSize { width: 30, height: 30 }, 8);
    state.snake = Snake::new(Position { x: 5, y: 5 }, Direction::Right);
    state.foods = vec![Food::new_super(Position { x: 6, y: 5 }, 10)];
    state.tick();
    assert_eq!(state.snake.len(), 6);
    // 5 points at level 1 with 6/900 cells covered: floor(5 * 1.0666) = 5.
    assert_eq!(state.score, 5);
    assert_eq!(
        state.active_glow().map(|g| g.trigger),
        Some(GlowTrigger::SuperFoodEaten)
    );
}

#[test]
fn super_food_degrades_after_its_countdown() {
    let mut state = GameState::new_with_seed(GridSize { width: 30, height: 30 }, 9);
    state.snake = Snake::new(Position { x: 5, y: 5 }, Direction::Right);
    state.foods = vec![Food::new_super(Position { x: 20, y: 20 }, 2)];
    state.tick();
    assert_eq!(state.foods[0].kind, FoodKind::Super { ticks_remaining: 1 });
    state.tick();
    assert_eq!(state.foods[0].kind, FoodKind::Normal);
    assert_eq!(state.tick_count, 2);
}

#[test]
fn new_state_places_snake_in_the_middle_with_food() {
    let state = GameState::new_with_seed(GridSize { width: 20, height: 10 }, 11);
    assert_eq!(state.snake.segments(), vec![Position { x: 10, y: 5 }]);
    assert_eq!(state.foods.len(), 1);
    assert!(!state.snake.occupies(state.foods[0].position));
    assert_eq!(state.foods[0].kind, FoodKind::Normal);
    assert_eq!(state.calculated_food_count(), 1);
    assert_eq!(state.bounds(), GridSize { width: 20, height: 10 });
}

#[test]
fn desired_food_count_follows_density() {
    let bounds = GridSize { width: 20, height: 20 };
    assert_eq!(desired_food_count(bounds, 1, default_food_density()), 1);
    let dense = FoodDensity { foods_per: 1, cells_per: 10 };
    assert_eq!(desired_food_count(bounds, 0, dense), 40);
    let every_cell = FoodDensity { foods_per: 5, cells_per: 1 };
    assert_eq!(desired_food_count(bounds, 390, every_cell), 10);
    assert_eq!(desired_food_count(bounds, 400, dense), 0);
    assert_eq!(
        normalize_food_density(FoodDensity { foods_per: 0, cells_per: 0 }),
        FoodDensity { foods_per: 1, cells_per: 1 }
    );
}

#[test]
fn density_change_refills_food() {
    let mut state = GameState::new_with_seed(GridSize { width: 10, height: 10 }, 12);
    state.set_food_density(FoodDensity { foods_per: 1, cells_per: 10 });
    assert_eq!(state.foods.len(), 9);
    for (i, food) in state.foods.iter().enumerate() {
        assert!(!state.snake.occupies(food.position));
        assert!(state.foods[..i].iter().all(|f| f.position != food.position));
    }
    state.set_food_density(default_food_density());
    assert_eq!(state.foods.len(), 1);
}

#[test]
fn speed_levels_follow_thresholds() {
    assert_eq!(speed_level_for(1, 1), 1);
    assert_eq!(speed_level_for(1, 8), 2);
    assert_eq!(speed_level_for(11, 2 + 54), 11);
    assert_eq!(speed_level_for(11, 2 + 55), 12);
}

#[test]
fn resize_wraps_snake_and_drops_outside_food() {
    let mut state = GameState::new_with_seed(GridSize { width: 20, height: 20 }, 13);
    state.snake = Snake::new(Position { x: 15, y: 3 }, Direction::Right);
    state.foods = vec![
        Food::new(Position { x: 2, y: 2 }),
        Food::new(Position { x: 18, y: 2 }),
        Food::new(Position { x: 2, y: 2 }),
    ];
    state.resize_bounds(GridSize { width: 10, height: 10 });
    assert_eq!(state.bounds(), GridSize { width: 10, height: 10 });
    assert_eq!(state.snake.head(), Position { x: 5, y: 3 });
    assert_eq!(state.foods, vec![Food::new(Position { x: 2, y: 2 })]);
    assert_eq!(state.status, GameStatus::Playing);
}

#[test]
fn resize_onto_a_single_cell_is_victory() {
    let mut state = GameState::new_with_seed(GridSize { width: 5, height: 5 }, 14);
    state.resize_bounds(GridSize { width: 1, height: 1 });
    assert_eq!(state.status, GameStatus::Victory);
    assert!(state.foods.is_empty());
}

#[test]
fn dedupe_keeps_first_food_per_cell() {
    let mut foods = vec![
        Food::new_super(Position { x: 1, y: 1 }, 4),
        Food::new(Position { x: 2, y: 1 }),
        Food::new(Position { x: 1, y: 1 }),
    ];
    dedupe_food_positions(&mut foods);
    assert_eq!(
        foods,
        vec![
            Food::new_super(Position { x: 1, y: 1 }, 4),
            Food::new(Position { x: 2, y: 1 })
        ]
    );
}

#[test]
fn restart_keeps_configuration() {
    let mut state = GameState::new_with_options_and_food_density(
        GridSize { width: 12, height: 8 },
        7,
        FoodDensity { foods_per: 1, cells_per: 20 },
    );
    state.score = 40;
    let fresh = state.restart();
    assert_eq!(fresh.bounds(), GridSize { width: 12, height: 8 });
    assert_eq!(fresh.speed_level, 7);
    assert_eq!(fresh.score, 0);
    assert_eq!(fresh.status, GameStatus::Playing);
    assert_eq!(fresh.foods.len(), 4);
}

#[test]
fn play_time_accumulates() {
    let mut state = GameState::new(GridSize { width: 10, height: 10 });
    state.record_tick_duration(Duration::from_millis(150));
    state.record_tick_millis(50);
    assert_eq!(state.elapsed_millis, 200);
    assert_eq!(state.elapsed_duration(), Duration::from_millis(200));
    state.record_tick_millis(u128::MAX);
    assert_eq!(state.elapsed_millis, u64::MAX);
}
