use terminal_snake::input::{direction_change_is_valid, Direction, InputConfig};

#[test]
fn opposite_direction_is_correct() {
    assert_eq!(Direction::Up.opposite(), Direction::Down);
    assert_eq!(Direction::Down.opposite(), Direction::Up);
    assert_eq!(Direction::Left.opposite(), Direction::Right);
    assert_eq!(Direction::Right.opposite(), Direction::Left);
}

#[test]
fn input_direction_buffer_rejects_reverse() {
    assert!(!direction_change_is_valid(Direction::Up, Direction::Down));
    assert!(!direction_change_is_valid(Direction::Down, Direction::Up));
    assert!(!direction_change_is_valid(
        Direction::Left,
        Direction::Right
    ));
    assert!(!direction_change_is_valid(
        Direction::Right,
        Direction::Left
    ));

    assert!(direction_change_is_valid(Direction::Up, Direction::Left));
    assert!(direction_change_is_valid(Direction::Up, Direction::Right));
}

#[test]
fn input_config_default_enables_controller() {
    let config = InputConfig::default();
    assert!(config.enable_controller);
    assert!(!config.is_wsl);
}
