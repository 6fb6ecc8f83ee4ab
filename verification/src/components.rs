//! Plain data shared by the simulation: vectors, speeds, the dash state and
//! the marker of the player entity.

use vstd::prelude::*;
use crate::clock::Clock;

verus! {

/// A point or a velocity in the plane, in whole arena units.
#[derive(Clone, Copy, Debug, PartialEq, Eq, Structural)]
pub struct Vec2 {
    pub x: i32,
    pub y: i32,
}

impl Vec2 {
    /// The vector `(x, y)`.
    pub fn new(x: i32, y: i32) -> (v: Vec2)
        ensures
            v.x == x,
            v.y == y,
    {
        Vec2 { x, y }
    }

    /// The zero vector.
    pub fn zero() -> (v: Vec2)
        ensures
            v.x == 0,
            v.y == 0,
    {
        Vec2 { x: 0, y: 0 }
    }
}

/// How fast an entity moves, in arena units per second.
#[derive(Clone, Copy, Debug, PartialEq, Eq, Structural)]
pub struct Speed(pub u32);

impl Speed {
    /// A speed is usable when a velocity of that magnitude fits a `Vec2`.
    pub open spec fn wf(self) -> bool {
        self.0 <= i32::MAX
    }
}

/// Reset value of a dash's remaining duration, in milliseconds.
pub const DASH_DURATION: u32 = 100;

/// Speed of the player during a dash.
pub const DASH_SPEED: u32 = 1200;

/// Speed of the player outside a dash.
pub const PLAYER_SPEED: u32 = 300;

/// The player's dash: a short burst at a higher speed.
#[derive(Clone, Copy, Debug, PartialEq, Eq, Structural)]
pub struct Dash {
    /// Speed while dashing.
    pub speed: u32,
    /// Whether a dash is under way.
    pub is_dashing: bool,
    /// Milliseconds left of the dash under way, or of the next one.
    pub duration: u32,
}

impl Dash {
    /// The remaining duration is positive and the dash speed fits a velocity.
    pub open spec fn wf(self) -> bool {
        self.duration > 0 && self.speed <= i32::MAX
    }

    /// What a tick of `dt` milliseconds leaves of a dash under way: the
    /// dash ends, with its duration reset, once the duration is used up.
    pub open spec fn ticked(self, dt: u32) -> Dash {
        if self.duration <= dt {
            Dash { speed: self.speed, is_dashing: false, duration: DASH_DURATION }
        } else {
            Dash { speed: self.speed, is_dashing: true, duration: (self.duration - dt) as u32 }
        }
    }
}

/// Whether the physics world moves a body.
#[derive(Clone, Copy, Debug, PartialEq, Eq, Structural)]
pub enum BodyKind {
    Dynamic,
    Static,
}

/// A rigid body: a rectangle that never rotates.
#[derive(Clone, Copy, Debug, PartialEq, Eq, Structural)]
pub struct Body {
    pub kind: BodyKind,
    /// Centre of the rectangle.
    pub position: Vec2,
    /// Linear velocity, in arena units per second.
    pub velocity: Vec2,
    /// Half the rectangle's width and height.
    pub half_extents: Vec2,
}

/// The arena and the unit convention of the physics world.
#[derive(Clone, Copy, Debug, PartialEq, Eq, Structural)]
pub struct Arena {
    pub width: u32,
    pub height: u32,
    /// Divides every direction vector before it is scaled by a speed.
    pub scale: u32,
}

/// Distance from a side wall at which the player stops.
pub const WALL_MARGIN_X: i64 = 20;

/// Distance from the top and bottom walls at which the player stops.
pub const WALL_MARGIN_Y: i64 = 32;

impl Arena {
    /// The scale divides, so it is not zero.
    pub open spec fn wf(self) -> bool {
        self.scale >= 1
    }

    /// Leftmost position at which the player still moves left.
    pub open spec fn left(self) -> int {
        self.width / 2 - self.width + WALL_MARGIN_X
    }

    /// Rightmost position at which the player still moves right.
    pub open spec fn right(self) -> int {
        self.width / 2 - WALL_MARGIN_X
    }

    /// Lowest position at which the player still moves down.
    pub open spec fn bottom(self) -> int {
        self.height / 2 - self.height + WALL_MARGIN_Y
    }

    /// Highest position at which the player still moves up.
    pub open spec fn top(self) -> int {
        self.height / 2 - WALL_MARGIN_Y
    }

    /// The arena of 800 by 600 units with scale 1.
    pub fn standard() -> (arena: Arena)
        ensures
            arena == (Arena { width: 800, height: 600, scale: 1 }),
            arena.wf(),
    {
        Arena { width: 800, height: 600, scale: 1 }
    }
}

/// The player: a clock, a walking speed, a dash and a body.
#[derive(Clone, Copy, Debug, PartialEq, Eq, Structural)]
pub struct Player {
    pub clock: Clock,
    pub dash: Dash,
    pub speed: Speed,
    pub body: Body,
}

impl Player {
    /// Both of the player's speeds fit a velocity.
    pub open spec fn wf(self) -> bool {
        self.dash.wf() && self.speed.wf()
    }
}

} // verus!
