//! Input as the host hands it over: one "is held" flag per named action.

use vstd::prelude::*;

verus! {

/// The four directions a cursor can be sent in.
#[derive(Clone, Copy, PartialEq, Eq, Structural, Debug)]
pub enum Direction {
    Left,
    Right,
    Up,
    Down,
}

/// One boolean per direction. The same shape serves two purposes: which
/// direction keys are held down this tick, and which directions are still
/// inside an active press from an earlier tick.
#[derive(Clone, Copy, PartialEq, Eq, Structural, Debug)]
pub struct DirectionFlags {
    pub left: bool,
    pub right: bool,
    pub up: bool,
    pub down: bool,
}

/// Whether a given direction's flag is set.
pub open spec fn spec_flag(flags: DirectionFlags, d: Direction) -> bool {
    match d {
        Direction::Left => flags.left,
        Direction::Right => flags.right,
        Direction::Up => flags.up,
        Direction::Down => flags.down,
    }
}

/// The flags with no direction set.
pub open spec fn spec_no_flags() -> DirectionFlags {
    DirectionFlags { left: false, right: false, up: false, down: false }
}

/// The flags with exactly one direction set.
pub open spec fn spec_only(d: Direction) -> DirectionFlags {
    match d {
        Direction::Left => DirectionFlags { left: true, ..spec_no_flags() },
        Direction::Right => DirectionFlags { right: true, ..spec_no_flags() },
        Direction::Up => DirectionFlags { up: true, ..spec_no_flags() },
        Direction::Down => DirectionFlags { down: true, ..spec_no_flags() },
    }
}

impl DirectionFlags {
    /// No direction set.
    pub fn none() -> (f: DirectionFlags)
        ensures
            f == spec_no_flags(),
    {
        DirectionFlags { left: false, right: false, up: false, down: false }
    }

    /// Exactly one direction set.
    pub fn only(d: Direction) -> (f: DirectionFlags)
        ensures
            f == spec_only(d),
    {
        match d {
            Direction::Left => DirectionFlags { left: true, right: false, up: false, down: false },
            Direction::Right => DirectionFlags { left: false, right: true, up: false, down: false },
            Direction::Up => DirectionFlags { left: false, right: false, up: true, down: false },
            Direction::Down => DirectionFlags { left: false, right: false, up: false, down: true },
        }
    }
}

impl Default for DirectionFlags {
    /// Before any input arrives, nothing is held.
    fn default() -> (f: DirectionFlags)
        ensures
            f == spec_no_flags(),
    {
        DirectionFlags { left: false, right: false, up: false, down: false }
    }
}

/// Everything the host reads off its bindings for one tick: the four
/// direction actions and the select action, each as a plain "is held" flag.
#[derive(Clone, Copy, PartialEq, Eq, Structural, Debug)]
pub struct InputState {
    pub directions: DirectionFlags,
    pub select: bool,
}

impl Default for InputState {
    /// Before any input arrives, nothing is held.
    fn default() -> (s: InputState)
        ensures
            s == (InputState { directions: spec_no_flags(), select: false }),
    {
        InputState { directions: DirectionFlags::none(), select: false }
    }
}

} // verus!
