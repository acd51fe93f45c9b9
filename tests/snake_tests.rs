use terminal_snake::config::GridSize;
use terminal_snake::input::Direction;
use terminal_snake::snake::{Position, Snake};

#[test]
fn position_wrapping_keeps_coordinates_inside_bounds() {
    let bounds = GridSize {
        width: 10,
        height: 8,
    };

    let wrapped_left = Position { x: -1, y: 3 }.wrapped(bounds);
    let wrapped_bottom = Position { x: 4, y: 8 }.wrapped(bounds);

    assert_eq!(wrapped_left, Position { x: 9, y: 3 });
    assert_eq!(wrapped_bottom, Position { x: 4, y: 0 });
}

#[test]
fn snake_moves_one_cell_per_tick() {
    let mut snake = Snake::new(Position { x: 5, y: 5 }, Direction::Right);

    snake.move_forward(GridSize {
        width: 40,
        height: 20,
    });

    assert_eq!(snake.head(), Position { x: 6, y: 5 });
    assert_eq!(snake.len(), 1);
}

#[test]
fn snake_growth_keeps_previous_tail() {
    let mut snake = Snake::new(Position { x: 5, y: 5 }, Direction::Right);

    snake.grow_next();
    snake.move_forward(GridSize {
        width: 40,
        height: 20,
    });

    assert_eq!(snake.len(), 2);
}

#[test]
fn snake_direction_buffer_rejects_reverse() {
    let mut snake = Snake::new(Position { x: 5, y: 5 }, Direction::Up);

    snake.buffer_direction(Direction::Down);
    snake.move_forward(GridSize {
        width: 40,
        height: 20,
    });

    assert_eq!(snake.head(), Position { x: 5, y: 4 });
}

#[test]
fn direction_buffer_two_deep_queue() {
    let bounds = GridSize {
        width: 40,
        height: 20,
    };
    let mut snake = Snake::new(Position { x: 5, y: 5 }, Direction::Down);

    snake.buffer_direction(Direction::Right);
    snake.buffer_direction(Direction::Up);

    snake.move_forward(bounds);
    assert_eq!(snake.head(), Position { x: 6, y: 5 });

    snake.move_forward(bounds);
    assert_eq!(snake.head(), Position { x: 6, y: 4 });
}

#[test]
fn direction_buffer_allows_180_turn_via_two_step_queue() {
    let bounds = GridSize {
        width: 40,
        height: 20,
    };
    let mut snake = Snake::new(Position { x: 5, y: 5 }, Direction::Left);

    snake.buffer_direction(Direction::Up);
    snake.buffer_direction(Direction::Right);

    snake.move_forward(bounds);
    assert_eq!(snake.head(), Position { x: 5, y: 4 });

    snake.move_forward(bounds);
    assert_eq!(snake.head(), Position { x: 6, y: 4 });
}

#[test]
fn direction_buffer_second_slot_uses_last_input() {
    let bounds = GridSize {
        width: 40,
        height: 20,
    };
    let mut snake = Snake::new(Position { x: 5, y: 5 }, Direction::Down);

    snake.buffer_direction(Direction::Right);
    snake.buffer_direction(Direction::Up);
    snake.buffer_direction(Direction::Down);

    snake.move_forward(bounds);
    assert_eq!(snake.head(), Position { x: 6, y: 5 });

    snake.move_forward(bounds);
    assert_eq!(snake.head(), Position { x: 6, y: 6 });
}

#[test]
fn direction_buffer_rejects_reversal_of_queued_direction() {
    let mut snake = Snake::new(Position { x: 5, y: 5 }, Direction::Down);

    snake.buffer_direction(Direction::Right);
    snake.buffer_direction(Direction::Left);

    assert!(snake.next_buffered_direction().is_none());
}

#[test]
fn growth_by_five_adds_five_segments_in_one_move() {
    let mut snake = Snake::new(Position { x: 5, y: 5 }, Direction::Right);
    snake.grow_by(5);
    snake.move_forward(GridSize { width: 40, height: 20 });
    assert_eq!(snake.len(), 6);
    let segments = snake.segments();
    assert_eq!(segments[0], Position { x: 6, y: 5 });
    assert!(segments[1..].iter().all(|p| *p == Position { x: 5, y: 5 }));
    snake.move_forward(GridSize { width: 40, height: 20 });
    assert_eq!(snake.len(), 6);
    assert_eq!(snake.head(), Position { x: 7, y: 5 });
}

#[test]
fn empty_segments_give_no_snake() {
    assert!(Snake::from_segments(Vec::new(), Direction::Up).is_none());
}

#[test]
fn head_overlap_and_occupancy() {
    let snake = Snake::from_segments(
        vec![
            Position { x: 1, y: 1 },
            Position { x: 2, y: 1 },
            Position { x: 1, y: 1 },
        ],
        Direction::Left,
    )
    .expect("valid segments");
    assert!(snake.head_overlaps_body());
    assert!(snake.occupies(Position { x: 2, y: 1 }));
    assert!(!snake.occupies(Position { x: 3, y: 1 }));
    assert_eq!(snake.direction(), Direction::Left);
    assert!(!snake.is_empty());
}

#[test]
fn wrapping_moves_snake_into_smaller_board() {
    let mut snake = Snake::from_segments(
        vec![Position { x: 12, y: 3 }, Position { x: 11, y: 3 }],
        Direction::Right,
    )
    .expect("valid segments");
    snake.wrap_into_bounds(GridSize { width: 10, height: 10 });
    assert_eq!(snake.segments(), vec![Position { x: 2, y: 3 }, Position { x: 1, y: 3 }]);
}

#[test]
fn within_bounds_checks_every_edge() {
    let bounds = GridSize { width: 4, height: 3 };
    assert!(Position { x: 0, y: 0 }.is_within_bounds(bounds));
    assert!(Position { x: 3, y: 2 }.is_within_bounds(bounds));
    assert!(!Position { x: 4, y: 2 }.is_within_bounds(bounds));
    assert!(!Position { x: -1, y: 0 }.is_within_bounds(bounds));
    assert!(!Position { x: 0, y: 3 }.is_within_bounds(bounds));
}
