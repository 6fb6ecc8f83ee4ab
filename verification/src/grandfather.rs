//! The two grandfather clocks, Sun and Moon: stationary emitters of alarms
//! with a countdown of their own.

use vstd::prelude::*;
use crate::alarm::SpawnAlarmEvent;
use crate::clock::Clock;
use crate::components::{Body, BodyKind, Vec2};

verus! {

/// Seconds on each grandfather's clock at the start of a game.
pub const GRANDFATHER_START_SECONDS: u32 = 300;

/// Milliseconds of simulated time between two emissions.
pub const EMIT_PERIOD: u64 = 3000;

/// A stationary emitter of alarms.
#[derive(Clone, Copy, Debug, PartialEq, Eq, Structural)]
pub struct Grandfather {
    pub clock: Clock,
    pub body: Body,
    /// Where an alarm appears, relative to the grandfather's centre.
    pub spawn_offset: Vec2,
}

impl Grandfather {
    /// The point at which the grandfather emits lies on the plane's grid.
    pub open spec fn wf(self) -> bool {
        &&& i32::MIN <= self.body.position.x + self.spawn_offset.x <= i32::MAX
        &&& i32::MIN <= self.body.position.y + self.spawn_offset.y <= i32::MAX
    }

    /// The point at which the grandfather emits its alarms.
    pub open spec fn emission_point(self) -> Vec2 {
        Vec2 {
            x: (self.body.position.x + self.spawn_offset.x) as i32,
            y: (self.body.position.y + self.spawn_offset.y) as i32,
        }
    }

    /// A grandfather emits as long as time remains on its clock.
    pub open spec fn emits(self) -> bool {
        self.clock.time > 0
    }

    /// What the grandfather sends at one emission.
    pub open spec fn emission(self) -> Seq<SpawnAlarmEvent> {
        if self.emits() {
            seq![SpawnAlarmEvent(self.emission_point())]
        } else {
            Seq::empty()
        }
    }
}

/// The Sun at the start of a game.
pub open spec fn new_sun() -> Grandfather {
    Grandfather {
        clock: Clock { time: 300_000, speed: 1000 },
        body: Body {
            kind: BodyKind::Static,
            position: Vec2 { x: -350i32, y: 210 },
            velocity: Vec2 { x: 0, y: 0 },
            half_extents: Vec2 { x: 70, y: 80 },
        },
        spawn_offset: Vec2 { x: 120, y: -20i32 },
    }
}

/// The Moon at the start of a game.
pub open spec fn new_moon() -> Grandfather {
    Grandfather {
        clock: Clock { time: 300_000, speed: 1000 },
        body: Body {
            kind: BodyKind::Static,
            position: Vec2 { x: 350, y: 200 },
            velocity: Vec2 { x: 0, y: 0 },
            half_extents: Vec2 { x: 90, y: 80 },
        },
        spawn_offset: Vec2 { x: -150i32, y: -20i32 },
    }
}

/// The events of one emission: the Moon's first, then the Sun's.
pub open spec fn emitted(sun: Grandfather, moon: Grandfather) -> Seq<SpawnAlarmEvent> {
    moon.emission() + sun.emission()
}

/// The two grandfathers at the start of a game, Sun first: each with 300
/// seconds on its clock, at its place in the arena.
pub fn spawn_grandfather() -> (pair: (Grandfather, Grandfather))
    ensures
        pair.0 == new_sun(),
        pair.1 == new_moon(),
        pair.0.wf(),
        pair.1.wf(),
{
    let sun = Grandfather {
        clock: Clock::new(GRANDFATHER_START_SECONDS),
        body: Body {
            kind: BodyKind::Static,
            position: Vec2::new(-350, 210),
            velocity: Vec2::zero(),
            half_extents: Vec2::new(70, 80),
        },
        spawn_offset: Vec2::new(120, -20),
    };
    let moon = Grandfather {
        clock: Clock::new(GRANDFATHER_START_SECONDS),
        body: Body {
            kind: BodyKind::Static,
            position: Vec2::new(350, 200),
            velocity: Vec2::zero(),
            half_extents: Vec2::new(90, 80),
        },
        spawn_offset: Vec2::new(-150, -20),
    };
    (sun, moon)
}

/// One emission: each grandfather with time left on its clock asks for one
/// alarm at its emission point.
pub fn spawn_alarm(sun: &Grandfather, moon: &Grandfather) -> (events: Vec<SpawnAlarmEvent>)
    requires
        sun.wf(),
        moon.wf(),
    ensures
        events@ == emitted(*sun, *moon),
        events@.len() <= 2,
{
    let mut events: Vec<SpawnAlarmEvent> = Vec::new();
    if moon.clock.time > 0 {
        events.push(
            SpawnAlarmEvent(
                Vec2 {
                    x: moon.body.position.x + moon.spawn_offset.x,
                    y: moon.body.position.y + moon.spawn_offset.y,
                },
            ),
        );
    }
    if sun.clock.time > 0 {
        events.push(
            SpawnAlarmEvent(
                Vec2 {
                    x: sun.body.position.x + sun.spawn_offset.x,
                    y: sun.body.position.y + sun.spawn_offset.y,
                },
            ),
        );
    }
    assert(events@ =~= emitted(*sun, *moon));
    events
}

/// Whether the game is won: nothing remains on either grandfather's clock.
pub fn handle_game_over(sun: &Grandfather, moon: &Grandfather) -> (won: bool)
    ensures
        won == (sun.clock.expired() && moon.clock.expired()),
{
    sun.clock.is_expired() && moon.clock.is_expired()
}

} // verus!
