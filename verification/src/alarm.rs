//! Alarms: homing projectiles that the grandfathers emit. An alarm follows
//! the player until the reflector touches it; from then on it flees.

use vstd::prelude::*;
use crate::clock::{sat_sub, Clock};
use crate::components::{Body, BodyKind, Speed, Vec2};
use crate::math::{
    abs, lemma_scaled_direction_aligned, lemma_scaled_direction_within_speed, max,
    scaled_direction, scaled_direction_spec,
};

verus! {

/// Speed of an alarm.
pub const ALARM_SPEED: u32 = 400;

/// Seconds that a hit takes off the clock of whoever is hit.
pub const PENALTY_SECONDS: u32 = 30;

/// The same penalty in milliseconds.
pub const PENALTY_MILLIS: u32 = 30_000;

/// A homing projectile.
#[derive(Clone, Copy, Debug, PartialEq, Eq, Structural)]
pub struct Alarm {
    /// Handle of the alarm's body in the physics world: the bit pattern
    /// of its entity. The rules carry it along and never read it; a new
    /// alarm has handle 0 until its body is created.
    pub id: u64,
    pub speed: Speed,
    /// Set once the reflector has touched the alarm.
    pub reflected: bool,
    pub body: Body,
}

/// A request to create an alarm at a position.
#[derive(Clone, Copy, Debug, PartialEq, Eq, Structural)]
pub struct SpawnAlarmEvent(pub Vec2);

/// The contacts of one alarm during the latest physics step.
#[derive(Clone, Copy, Debug, PartialEq, Eq, Structural)]
pub struct Contact {
    pub reflector: bool,
    pub player: bool,
    pub sun: bool,
    pub moon: bool,
}

impl Alarm {
    /// The alarm's speed fits a velocity.
    pub open spec fn wf(self) -> bool {
        self.speed.wf()
    }
}

/// The alarm that a spawn event at `at` creates: at rest, not reflected.
pub open spec fn new_alarm(at: Vec2) -> Alarm {
    Alarm {
        id: 0,
        speed: Speed(ALARM_SPEED),
        reflected: false,
        body: Body {
            kind: BodyKind::Dynamic,
            position: at,
            velocity: Vec2 { x: 0, y: 0 },
            half_extents: Vec2 { x: 20, y: 25 },
        },
    }
}

/// The velocity that steering gives an alarm when the player is at
/// `target`: toward the player at the alarm's speed, away from the player
/// once reflected, and unchanged where the alarm sits on the player.
pub open spec fn steered_velocity(alarm: Alarm, target: Vec2, scale: int) -> (int, int) {
    let dx = target.x - alarm.body.position.x;
    let dy = target.y - alarm.body.position.y;
    if dx == 0 && dy == 0 {
        (alarm.body.velocity.x as int, alarm.body.velocity.y as int)
    } else {
        let v = scaled_direction_spec(dx, dy, alarm.speed.0 as int, scale);
        if alarm.reflected {
            (-v.0, -v.1)
        } else {
            v
        }
    }
}

/// `after` is `before` with the velocity that steering gives it.
pub open spec fn is_steered(before: Alarm, after: Alarm, target: Vec2, scale: int) -> bool {
    &&& (after.body.velocity.x as int, after.body.velocity.y as int) == steered_velocity(
        before,
        target,
        scale,
    )
    &&& after.id == before.id
    &&& after.speed == before.speed
    &&& after.reflected == before.reflected
    &&& after.body.kind == before.body.kind
    &&& after.body.position == before.body.position
    &&& after.body.half_extents == before.body.half_extents
}

/// No contact at all.
pub open spec fn no_contact() -> Contact {
    Contact { reflector: false, player: false, sun: false, moon: false }
}

/// The contacts of the alarm at index `i`: none where the list is short.
pub open spec fn contact_at(contacts: Seq<Contact>, i: int) -> Contact {
    if 0 <= i < contacts.len() {
        contacts[i]
    } else {
        no_contact()
    }
}

/// A contact with the player or a grandfather destroys the alarm.
pub open spec fn is_destroyed(c: Contact) -> bool {
    c.player || c.sun || c.moon
}

/// The hit counts against the sun's clock: the player was not hit too.
pub open spec fn hits_sun(c: Contact) -> bool {
    !c.player && c.sun
}

/// The hit counts against the moon's clock: the player was not hit too.
pub open spec fn hits_moon(c: Contact) -> bool {
    !c.player && c.moon
}

/// The alarm with its reflection flag set if the reflector touched it.
pub open spec fn marked(alarm: Alarm, c: Contact) -> Alarm {
    Alarm {
        id: alarm.id,
        speed: alarm.speed,
        reflected: alarm.reflected || c.reflector,
        body: alarm.body,
    }
}

/// The first `n` alarms after collision resolution: those that touched
/// neither the player nor a grandfather, in their order, marked.
pub open spec fn survivors(alarms: Seq<Alarm>, contacts: Seq<Contact>, n: int) -> Seq<Alarm>
    decreases n,
{
    if n <= 0 {
        Seq::empty()
    } else {
        let rest = survivors(alarms, contacts, n - 1);
        let c = contact_at(contacts, n - 1);
        if is_destroyed(c) {
            rest
        } else {
            rest.push(marked(alarms[n - 1], c))
        }
    }
}

/// How many of the first `n` alarms hit the player.
pub open spec fn player_hits(contacts: Seq<Contact>, n: int) -> int
    decreases n,
{
    if n <= 0 {
        0
    } else {
        player_hits(contacts, n - 1) + if contact_at(contacts, n - 1).player {
            1int
        } else {
            0int
        }
    }
}

/// How many of the first `n` alarms hit the sun and not the player.
pub open spec fn sun_hits(contacts: Seq<Contact>, n: int) -> int
    decreases n,
{
    if n <= 0 {
        0
    } else {
        sun_hits(contacts, n - 1) + if hits_sun(contact_at(contacts, n - 1)) {
            1int
        } else {
            0int
        }
    }
}

/// How many of the first `n` alarms hit the moon and not the player.
pub open spec fn moon_hits(contacts: Seq<Contact>, n: int) -> int
    decreases n,
{
    if n <= 0 {
        0
    } else {
        moon_hits(contacts, n - 1) + if hits_moon(contact_at(contacts, n - 1)) {
            1int
        } else {
            0int
        }
    }
}

/// The first `n` alarms after a cleanup: those not reflected, in their order.
pub open spec fn unreflected(alarms: Seq<Alarm>, n: int) -> Seq<Alarm>
    decreases n,
{
    if n <= 0 {
        Seq::empty()
    } else {
        let rest = unreflected(alarms, n - 1);
        if alarms[n - 1].reflected {
            rest
        } else {
            rest.push(alarms[n - 1])
        }
    }
}

/// Every alarm of the list has a speed that fits a velocity.
pub open spec fn all_wf(alarms: Seq<Alarm>) -> bool {
    forall|i: int| 0 <= i < alarms.len() ==> (#[trigger] alarms[i]).wf()
}

/// Creates one alarm for each spawn event, in the events' order, behind
/// the alarms that exist.
pub fn spawn_alarm(events: &Vec<SpawnAlarmEvent>, alarms: &mut Vec<Alarm>)
    ensures
        final(alarms)@ == old(alarms)@ + Seq::new(events@.len(), |j: int| new_alarm(events@[j].0)),
        all_wf(old(alarms)@) ==> all_wf(final(alarms)@),
{
    let ghost before = alarms@;
    let mut i: usize = 0;
    while i < events.len()
        invariant
            i <= events.len(),
            alarms@.len() == before.len() + i,
            forall|j: int| 0 <= j < before.len() ==> alarms@[j] == before[j],
            forall|j: int| 0 <= j < i ==> alarms@[before.len() + j] == new_alarm(events@[j].0),
        decreases events.len() - i,
    {
        let at: Vec2 = events[i].0;
        alarms.push(
            Alarm {
                id: 0,
                speed: Speed(ALARM_SPEED),
                reflected: false,
                body: Body {
                    kind: BodyKind::Dynamic,
                    position: at,
                    velocity: Vec2::zero(),
                    half_extents: Vec2::new(20, 25),
                },
            },
        );
        i = i + 1;
    }
    assert(alarms@ =~= before + Seq::new(events@.len(), |j: int| new_alarm(events@[j].0)));
}

/// Steers one alarm toward the player at `target`, or away from the player
/// if the alarm is reflected.
pub fn steer(alarm: Alarm, target: Vec2, scale: u32) -> (after: Alarm)
    requires
        alarm.wf(),
        scale >= 1,
    ensures
        is_steered(alarm, after, target, scale as int),
        after.wf(),
{
    let dx: i64 = target.x as i64 - alarm.body.position.x as i64;
    let dy: i64 = target.y as i64 - alarm.body.position.y as i64;
    if dx == 0 && dy == 0 {
        alarm
    } else {
        let toward: Vec2 = scaled_direction(dx, dy, alarm.speed.0, scale);
        let velocity: Vec2 = if alarm.reflected {
            Vec2 { x: -toward.x, y: -toward.y }
        } else {
            toward
        };
        Alarm {
            id: alarm.id,
            speed: alarm.speed,
            reflected: alarm.reflected,
            body: Body {
                kind: alarm.body.kind,
                position: alarm.body.position,
                velocity,
                half_extents: alarm.body.half_extents,
            },
        }
    }
}

/// Steers every alarm: each gets the velocity that carries it toward the
/// player at `target`, or away from the player once reflected.
pub fn move_alarm(alarms: &mut Vec<Alarm>, target: Vec2, scale: u32)
    requires
        all_wf(old(alarms)@),
        scale >= 1,
    ensures
        final(alarms)@.len() == old(alarms)@.len(),
        forall|i: int|
            0 <= i < old(alarms)@.len() ==> is_steered(
                old(alarms)@[i],
                #[trigger] final(alarms)@[i],
                target,
                scale as int,
            ),
        all_wf(final(alarms)@),
{
    let ghost before = alarms@;
    let n: usize = alarms.len();
    let mut i: usize = 0;
    while i < n
        invariant
            i <= n,
            n == before.len(),
            alarms@.len() == n,
            scale >= 1,
            all_wf(before),
            forall|j: int| 0 <= j < i ==> is_steered(before[j], #[trigger] alarms@[j], target, scale as int),
            forall|j: int| 0 <= j < i ==> (#[trigger] alarms@[j]).wf(),
            forall|j: int| i <= j < n ==> alarms@[j] == before[j],
        decreases n - i,
    {
        let current: Alarm = alarms[i];
        assert(current == before[i as int]);
        assert(before[i as int].wf());
        let after: Alarm = steer(current, target, scale);
        alarms.set(i, after);
        i = i + 1;
    }
}

/// Resolves the contacts of the latest physics step, alarm by alarm. An
/// alarm that the reflector touched is marked reflected. One that touched
/// the player costs the player's clock the penalty and is destroyed;
/// otherwise one that touched a grandfather costs that grandfather's clock
/// the penalty and is destroyed. `contacts` holds the contacts of each
/// alarm at the alarm's index; an alarm without an entry touched nothing.
pub fn handle_collisions(
    alarms: &mut Vec<Alarm>,
    contacts: &Vec<Contact>,
    player: &mut Clock,
    sun: &mut Clock,
    moon: &mut Clock,
)
    ensures
        final(alarms)@ == survivors(old(alarms)@, contacts@, old(alarms)@.len() as int),
        final(alarms)@.len() <= old(alarms)@.len(),
        all_wf(old(alarms)@) ==> all_wf(final(alarms)@),
        final(player).time == sat_sub(
            old(player).time as int,
            PENALTY_MILLIS * player_hits(contacts@, old(alarms)@.len() as int),
        ),
        final(sun).time == sat_sub(
            old(sun).time as int,
            PENALTY_MILLIS * sun_hits(contacts@, old(alarms)@.len() as int),
        ),
        final(moon).time == sat_sub(
            old(moon).time as int,
            PENALTY_MILLIS * moon_hits(contacts@, old(alarms)@.len() as int),
        ),
        final(player).speed == old(player).speed,
        final(sun).speed == old(sun).speed,
        final(moon).speed == old(moon).speed,
        final(player).time <= old(player).time,
        final(sun).time <= old(sun).time,
        final(moon).time <= old(moon).time,
{
    let ghost before = alarms@;
    let ghost player_before = *player;
    let ghost sun_before = *sun;
    let ghost moon_before = *moon;
    let n: usize = alarms.len();
    let mut kept: Vec<Alarm> = Vec::new();
    let mut i: usize = 0;
    while i < n
        invariant
            i <= n,
            n == before.len(),
            alarms@ == before,
            kept@ == survivors(before, contacts@, i as int),
            kept@.len() <= i,
            all_wf(before) ==> all_wf(kept@),
            player_hits(contacts@, i as int) >= 0,
            sun_hits(contacts@, i as int) >= 0,
            moon_hits(contacts@, i as int) >= 0,
            player.time == sat_sub(
                player_before.time as int,
                PENALTY_MILLIS * player_hits(contacts@, i as int),
            ),
            sun.time == sat_sub(sun_before.time as int, PENALTY_MILLIS * sun_hits(contacts@, i as int)),
            moon.time == sat_sub(
                moon_before.time as int,
                PENALTY_MILLIS * moon_hits(contacts@, i as int),
            ),
            player.speed == player_before.speed,
            sun.speed == sun_before.speed,
            moon.speed == moon_before.speed,
        decreases n - i,
    {
        let alarm: Alarm = alarms[i];
        let c: Contact = if i < contacts.len() {
            contacts[i]
        } else {
            Contact { reflector: false, player: false, sun: false, moon: false }
        };
        assert(c == contact_at(contacts@, i as int));
        if c.player {
            player.sub_seconds(PENALTY_SECONDS);
        } else {
            if c.sun {
                sun.sub_seconds(PENALTY_SECONDS);
            }
            if c.moon {
                moon.sub_seconds(PENALTY_SECONDS);
            }
            if !c.sun && !c.moon {
                kept.push(
                    Alarm {
                        id: alarm.id,
                        speed: alarm.speed,
                        reflected: alarm.reflected || c.reflector,
                        body: alarm.body,
                    },
                );
            }
        }
        i = i + 1;
    }
    *alarms = kept;
}

/// Destroys every reflected alarm; the others stay, in their order.
pub fn cleanup_alarms(alarms: &mut Vec<Alarm>)
    ensures
        final(alarms)@ == unreflected(old(alarms)@, old(alarms)@.len() as int),
        final(alarms)@.len() <= old(alarms)@.len(),
        forall|i: int| 0 <= i < final(alarms)@.len() ==> !(#[trigger] final(alarms)@[i]).reflected,
        all_wf(old(alarms)@) ==> all_wf(final(alarms)@),
{
    let ghost before = alarms@;
    let n: usize = alarms.len();
    let mut kept: Vec<Alarm> = Vec::new();
    let mut i: usize = 0;
    while i < n
        invariant
            i <= n,
            n == before.len(),
            alarms@ == before,
            kept@ == unreflected(before, i as int),
            kept@.len() <= i,
            forall|j: int| 0 <= j < kept@.len() ==> !(#[trigger] kept@[j]).reflected,
            all_wf(before) ==> all_wf(kept@),
        decreases n - i,
    {
        let alarm: Alarm = alarms[i];
        if !alarm.reflected {
            kept.push(alarm);
        }
        i = i + 1;
    }
    *alarms = kept;
}

/// A steered alarm heads for the player, and a reflected one away from the
/// player: no component of its velocity points the other way, the cross
/// product of the velocity with the vector between alarm and player is no
/// larger than that vector's larger component, and the velocity is no
/// faster than the alarm's speed.
pub proof fn lemma_steering_follows_player(before: Alarm, after: Alarm, target: Vec2, scale: int)
    requires
        scale >= 1,
        is_steered(before, after, target, scale),
        target != before.body.position,
    ensures
        ({
            let dx = target.x - before.body.position.x;
            let dy = target.y - before.body.position.y;
            let vx = after.body.velocity.x as int;
            let vy = after.body.velocity.y as int;
            &&& abs(vx * dy - vy * dx) <= max(abs(dx), abs(dy))
            &&& !before.reflected ==> vx * dx >= 0 && vy * dy >= 0
            &&& before.reflected ==> vx * (-dx) >= 0 && vy * (-dy) >= 0
            &&& vx * vx + vy * vy <= before.speed.0 * before.speed.0
        }),
{
    let dx = target.x - before.body.position.x;
    let dy = target.y - before.body.position.y;
    let speed = before.speed.0 as int;
    lemma_scaled_direction_aligned(dx, dy, speed, scale);
    lemma_scaled_direction_within_speed(dx, dy, speed, scale);
    let v = scaled_direction_spec(dx, dy, speed, scale);
    let vx = after.body.velocity.x as int;
    let vy = after.body.velocity.y as int;
    assert(vx * vx == v.0 * v.0 && vy * vy == v.1 * v.1) by (nonlinear_arith)
        requires
            vx == v.0 || vx == -v.0,
            vy == v.1 || vy == -v.1,
    ;
    assert(v.0 * dx >= 0 && v.1 * dy >= 0) by (nonlinear_arith)
        requires
            (dx >= 0 ==> v.0 >= 0) && (dx <= 0 ==> v.0 <= 0),
            (dy >= 0 ==> v.1 >= 0) && (dy <= 0 ==> v.1 <= 0),
    ;
    if before.reflected {
        assert(vx * dy - vy * dx == -(v.0 * dy - v.1 * dx) && vx * (-dx) == v.0 * dx && vy * (-dy)
            == v.1 * dy) by (nonlinear_arith)
            requires
                vx == -v.0,
                vy == -v.1,
        ;
    }
}

} // verus!
