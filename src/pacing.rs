use std::time::Duration;
use vstd::prelude::*;

use crate::clock::{duration_of_millis, millis_in};
use crate::config::{DEFAULT_TICK_INTERVAL_MS, MIN_TICK_INTERVAL_MS};

verus! {

/// Milliseconds between ticks at `speed_level`: 10 ms faster per level above
/// the first, never below the minimum interval.
pub open spec fn interval_millis(speed_level: u32) -> nat {
    let penalty: int = if speed_level >= 1 {
        (speed_level - 1) * 10
    } else {
        0
    };
    let reduced: int = DEFAULT_TICK_INTERVAL_MS - penalty;
    if reduced < MIN_TICK_INTERVAL_MS {
        MIN_TICK_INTERVAL_MS as nat
    } else {
        reduced as nat
    }
}

/// Returns the tick interval in milliseconds for `speed_level`.
pub fn tick_interval_millis(speed_level: u32) -> (r: u64)
    ensures
        r == interval_millis(speed_level),
        MIN_TICK_INTERVAL_MS <= r <= DEFAULT_TICK_INTERVAL_MS,
{
    let levels_above_first: u64 = if speed_level >= 1 {
        (speed_level - 1) as u64
    } else {
        0
    };
    let penalty: u64 = levels_above_first * 10;
    let reduced: u64 = if penalty >= DEFAULT_TICK_INTERVAL_MS {
        0
    } else {
        DEFAULT_TICK_INTERVAL_MS - penalty
    };
    if reduced < MIN_TICK_INTERVAL_MS {
        MIN_TICK_INTERVAL_MS
    } else {
        reduced
    }
}

/// Returns the tick interval for `speed_level` as a duration.
pub fn tick_interval_for_speed(speed_level: u32) -> (r: Duration)
    ensures
        millis_in(r) == interval_millis(speed_level),
{
    duration_of_millis(tick_interval_millis(speed_level))
}

/// Index after `current` in a cyclic list of `len` items.
pub fn wrap_next(current: usize, len: usize) -> (r: usize)
    requires
        len > 0,
        current < usize::MAX,
    ensures
        r == (current + 1) % (len as int),
        r < len,
{
    (current + 1) % len
}

/// Index before `current` in a cyclic list of `len` items.
pub fn wrap_prev(current: usize, len: usize) -> (r: usize)
    requires
        len > 0,
    ensures
        r == if current == 0 {
            len - 1
        } else {
            current - 1
        },
{
    if current == 0 {
        len - 1
    } else {
        current - 1
    }
}

} // verus!
