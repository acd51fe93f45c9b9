use vstd::prelude::*;

verus! {

/// Canonical movement directions.
#[derive(Debug, Clone, Copy, PartialEq, Eq, Structural)]
pub enum Direction {
    Up,
    Down,
    Left,
    Right,
}

impl Direction {
    pub open spec fn opposite_spec(self) -> Direction {
        match self {
            Direction::Up => Direction::Down,
            Direction::Down => Direction::Up,
            Direction::Left => Direction::Right,
            Direction::Right => Direction::Left,
        }
    }

    /// Returns the opposite direction.
    #[verifier::when_used_as_spec(opposite_spec)]
    pub fn opposite(self) -> (r: Direction)
        ensures
            r == self.opposite_spec(),
    {
        match self {
            Direction::Up => Direction::Down,
            Direction::Down => Direction::Up,
            Direction::Left => Direction::Right,
            Direction::Right => Direction::Left,
        }
    }
}

/// High-level input events fed to the game state.
#[derive(Debug, Clone, Copy, PartialEq, Eq, Structural)]
pub enum GameInput {
    Direction(Direction),
    Pause,
    Quit,
    Confirm,
    CycleTheme,
    Resize,
}

/// Flags for input source initialisation.
#[derive(Debug, Clone, Copy)]
pub struct InputConfig {
    pub enable_controller: bool,
    pub is_wsl: bool,
}

impl Default for InputConfig {
    fn default() -> (r: InputConfig)
        ensures
            r.enable_controller,
            !r.is_wsl,
    {
        InputConfig { enable_controller: true, is_wsl: false }
    }
}

/// Returns whether a direction change is legal (no immediate reversal).
pub fn direction_change_is_valid(current: Direction, next: Direction) -> (r: bool)
    ensures
        r == (next != current.opposite()),
{
    next != current.opposite()
}

} // verus!
