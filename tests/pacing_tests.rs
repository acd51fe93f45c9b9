use std::time::Duration;
use terminal_snake::color::{brighten_channel_30_percent, xterm_index_to_rgb};
use terminal_snake::pacing::{tick_interval_for_speed, tick_interval_millis, wrap_next, wrap_prev};

#[test]
fn tick_interval_shrinks_with_speed_and_is_clamped() {
    assert_eq!(tick_interval_millis(1), 200);
    assert_eq!(tick_interval_millis(0), 200);
    assert_eq!(tick_interval_millis(5), 160);
    assert_eq!(tick_interval_millis(15), 60);
    assert_eq!(tick_interval_millis(u32::MAX), 60);
    assert_eq!(tick_interval_for_speed(2), Duration::from_millis(190));
}

#[test]
fn menu_indices_wrap_around() {
    assert_eq!(wrap_next(2, 3), 0);
    assert_eq!(wrap_next(0, 3), 1);
    assert_eq!(wrap_prev(0, 3), 2);
    assert_eq!(wrap_prev(2, 3), 1);
}

#[test]
fn brightening_moves_toward_white() {
    assert_eq!(brighten_channel_30_percent(0), 77);
    assert_eq!(brighten_channel_30_percent(255), 255);
    assert_eq!(brighten_channel_30_percent(100), 147);
}

#[test]
fn xterm_palette_covers_all_ranges() {
    assert_eq!(xterm_index_to_rgb(1), (128, 0, 0));
    assert_eq!(xterm_index_to_rgb(16), (0, 0, 0));
    assert_eq!(xterm_index_to_rgb(196), (255, 0, 0));
    assert_eq!(xterm_index_to_rgb(21), (0, 0, 255));
    assert_eq!(xterm_index_to_rgb(232), (8, 8, 8));
    assert_eq!(xterm_index_to_rgb(255), (238, 238, 238));
}
