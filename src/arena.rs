//! The arena, the ship's parameters and its pose, all in exact integer units.
//!
//! Angles are held in arcminutes (a full turn is `FULL_TURN`), so that a turn
//! rate in whole degrees per second moves the heading by a whole number of
//! arcminutes each tick. Lengths are held in fine units: `FINE_PER_UNIT` of them
//! make one arena unit, so that one tick's travel at a whole speed, along a
//! direction given in millionths, is a whole number of fine units.
use vstd::prelude::*;

verus! {

/// Fixed simulation ticks per second.
pub const TICKS_PER_SECOND: i64 = 60;

/// Arcminutes in one degree.
pub const ARCMIN_PER_DEGREE: i64 = 60;

/// A full turn, in arcminutes.
pub const FULL_TURN: i64 = 360 * ARCMIN_PER_DEGREE;

/// Half a turn, in arcminutes.
pub const HALF_TURN: i64 = 180 * ARCMIN_PER_DEGREE;

/// A direction's components are given in units of `1 / DIRECTION_SCALE`.
pub const DIRECTION_SCALE: i64 = 1000000;

/// Fine units in one arena unit: two thrust halves, times the ticks in a
/// second, times the direction scale.
pub const FINE_PER_UNIT: i64 = 2 * TICKS_PER_SECOND * DIRECTION_SCALE;

/// Width of the arena, in arena units.
pub const ARENA_WIDTH: i64 = 1200;

/// Height of the arena, in arena units.
pub const ARENA_HEIGHT: i64 = 640;

/// Half the arena's width, in fine units.
pub const HALF_WIDTH_FINE: i64 = 600 * FINE_PER_UNIT;

/// Half the arena's height, in fine units.
pub const HALF_HEIGHT_FINE: i64 = 320 * FINE_PER_UNIT;

/// Largest movement speed, in arena units per second, at which one tick's
/// travel never exceeds half the arena's height (so one reflection suffices).
pub const MAX_MOVEMENT_SPEED: u32 = 19200;

/// Movement speed of the demo ship, in arena units per second.
pub const SHIP_MOVEMENT_SPEED: u32 = 500;

/// Rotation speed of the demo ship, in degrees per second.
pub const SHIP_ROTATION_SPEED: u32 = 360;

/// Whether a coordinate lies within the arena's horizontal extent.
pub open spec fn within_x(x: int) -> bool {
    -HALF_WIDTH_FINE <= x <= HALF_WIDTH_FINE
}

/// Whether a coordinate lies within the arena's vertical extent.
pub open spec fn within_y(y: int) -> bool {
    -HALF_HEIGHT_FINE <= y <= HALF_HEIGHT_FINE
}

/// The fixed parameters of a ship.
#[derive(Clone, Copy, Debug, PartialEq, Eq)]
pub struct Player {
    /// arena units per second
    pub movement_speed: u32,
    /// degrees per second
    pub rotation_speed: u32,
}

impl Player {
    pub open spec fn wf(self) -> bool {
        self.movement_speed <= MAX_MOVEMENT_SPEED
    }

    /// Parameters with the given speeds; `None` where the movement speed would
    /// carry the ship more than half the arena's height in one tick.
    pub fn new(movement_speed: u32, rotation_speed: u32) -> (r: Option<Player>)
        ensures
            r == (if movement_speed <= MAX_MOVEMENT_SPEED {
                Some(Player { movement_speed, rotation_speed })
            } else {
                None::<Player>
            }),
    {
        if movement_speed <= MAX_MOVEMENT_SPEED {
            Some(Player { movement_speed, rotation_speed })
        } else {
            None
        }
    }

    /// The demo ship: 500 units per second, one full turn per second.
    pub fn ship() -> (r: Player)
        ensures
            r.movement_speed == SHIP_MOVEMENT_SPEED,
            r.rotation_speed == SHIP_ROTATION_SPEED,
            r.wf(),
    {
        Player { movement_speed: SHIP_MOVEMENT_SPEED, rotation_speed: SHIP_ROTATION_SPEED }
    }
}

/// A direction in the plane, each component in units of `1 / DIRECTION_SCALE`
/// (a unit vector has components of magnitude at most `DIRECTION_SCALE`).
#[derive(Clone, Copy, Debug, PartialEq, Eq)]
pub struct Direction {
    pub x: i64,
    pub y: i64,
}

impl Direction {
    pub open spec fn wf(self) -> bool {
        -DIRECTION_SCALE <= self.x <= DIRECTION_SCALE && -DIRECTION_SCALE <= self.y
            <= DIRECTION_SCALE
    }

    /// A direction from its components; `None` where one exceeds the scale.
    pub fn new(x: i64, y: i64) -> (r: Option<Direction>)
        ensures
            r == (if -DIRECTION_SCALE <= x <= DIRECTION_SCALE && -DIRECTION_SCALE <= y
                <= DIRECTION_SCALE {
                Some(Direction { x, y })
            } else {
                None::<Direction>
            }),
    {
        if -DIRECTION_SCALE <= x && x <= DIRECTION_SCALE && -DIRECTION_SCALE <= y && y
            <= DIRECTION_SCALE {
            Some(Direction { x, y })
        } else {
            None
        }
    }
}

/// Position (fine units, origin at the arena's centre) and heading
/// (arcminutes counter-clockwise from the ship's local up along +Y).
#[derive(Clone, Copy, Debug, PartialEq, Eq)]
pub struct Pose {
    pub x: i64,
    pub y: i64,
    pub heading: i64,
}

impl Pose {
    /// Inside the arena, with the heading reduced to one turn.
    pub open spec fn wf(self) -> bool {
        within_x(self.x as int) && within_y(self.y as int) && 0 <= self.heading < FULL_TURN
    }

    /// A pose from its parts; `None` where it lies outside the arena or the
    /// heading is not within `[0, FULL_TURN)`.
    pub fn new(x: i64, y: i64, heading: i64) -> (r: Option<Pose>)
        ensures
            r == (if (Pose { x, y, heading }).wf() {
                Some(Pose { x, y, heading })
            } else {
                None::<Pose>
            }),
    {
        if -HALF_WIDTH_FINE <= x && x <= HALF_WIDTH_FINE && -HALF_HEIGHT_FINE <= y && y
            <= HALF_HEIGHT_FINE && 0 <= heading && heading < FULL_TURN {
            Some(Pose { x, y, heading })
        } else {
            None
        }
    }
}

} // verus!
