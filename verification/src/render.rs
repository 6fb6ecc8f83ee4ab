//! What a renderer is shown of the world: one record for each entity.

use vstd::prelude::*;
use crate::clock::display_spec;
use crate::components::Vec2;
use crate::reflector::{reflector_position, reflector_position_spec};
use crate::world::World;

verus! {

/// What kind of entity a record shows.
#[derive(Clone, Copy, Debug, PartialEq, Eq, Structural)]
pub enum EntityKind {
    Player,
    Reflector,
    GrandfatherSun,
    GrandfatherMoon,
    Alarm,
}

/// One entity as a renderer sees it.
#[derive(Debug, PartialEq, Eq)]
pub struct RenderRecord {
    pub kind: EntityKind,
    pub position: Vec2,
    /// For an alarm, whether it is reflected.
    pub reflected: Option<bool>,
    /// For an entity with a clock, the clock's text.
    pub clock_display: Option<String>,
}

/// The record shows an entity of the given kind at the given place, with
/// the given reflection flag and clock text.
pub open spec fn shows(
    record: RenderRecord,
    kind: EntityKind,
    position: Vec2,
    reflected: Option<bool>,
    clock: Option<Seq<char>>,
) -> bool {
    &&& record.kind == kind
    &&& record.position == position
    &&& record.reflected == reflected
    &&& match clock {
        Some(text) => record.clock_display.is_some() && record.clock_display.unwrap()@ == text,
        None => record.clock_display.is_none(),
    }
}

/// The records show the world: the player, the reflector, the Sun and the
/// Moon, then every alarm in the world's order.
pub open spec fn show_world(records: Seq<RenderRecord>, world: World) -> bool {
    &&& records.len() == 4 + world.alarms@.len()
    &&& shows(
        records[0],
        EntityKind::Player,
        world.player.body.position,
        None,
        Some(display_spec(world.player.clock.time as int)),
    )
    &&& shows(
        records[1],
        EntityKind::Reflector,
        reflector_position_spec(world.player.body.position),
        None,
        None,
    )
    &&& shows(
        records[2],
        EntityKind::GrandfatherSun,
        world.sun.body.position,
        None,
        Some(display_spec(world.sun.clock.time as int)),
    )
    &&& shows(
        records[3],
        EntityKind::GrandfatherMoon,
        world.moon.body.position,
        None,
        Some(display_spec(world.moon.clock.time as int)),
    )
    &&& forall|i: int|
        0 <= i < world.alarms@.len() ==> shows(
            #[trigger] records[4 + i],
            EntityKind::Alarm,
            world.alarms@[i].body.position,
            Some(world.alarms@[i].reflected),
            None,
        )
}

/// Lists what a renderer is to draw: one record for each entity of the
/// world, with the text of its clock where it has one.
pub fn render_records(world: &World) -> (records: Vec<RenderRecord>)
    ensures
        show_world(records@, *world),
{
    let mut records: Vec<RenderRecord> = Vec::new();
    records.push(
        RenderRecord {
            kind: EntityKind::Player,
            position: world.player.body.position,
            reflected: None,
            clock_display: Some(world.player.clock.display()),
        },
    );
    records.push(
        RenderRecord {
            kind: EntityKind::Reflector,
            position: reflector_position(world.player.body.position),
            reflected: None,
            clock_display: None,
        },
    );
    records.push(
        RenderRecord {
            kind: EntityKind::GrandfatherSun,
            position: world.sun.body.position,
            reflected: None,
            clock_display: Some(world.sun.clock.display()),
        },
    );
    records.push(
        RenderRecord {
            kind: EntityKind::GrandfatherMoon,
            position: world.moon.body.position,
            reflected: None,
            clock_display: Some(world.moon.clock.display()),
        },
    );
    let count: usize = world.alarms.len();
    let mut i: usize = 0;
    while i < count
        invariant
            i <= count,
            count == world.alarms@.len(),
            records@.len() == 4 + i,
            shows(
                records@[0],
                EntityKind::Player,
                world.player.body.position,
                None,
                Some(display_spec(world.player.clock.time as int)),
            ),
            shows(
                records@[1],
                EntityKind::Reflector,
                reflector_position_spec(world.player.body.position),
                None,
                None,
            ),
            shows(
                records@[2],
                EntityKind::GrandfatherSun,
                world.sun.body.position,
                None,
                Some(display_spec(world.sun.clock.time as int)),
            ),
            shows(
                records@[3],
                EntityKind::GrandfatherMoon,
                world.moon.body.position,
                None,
                Some(display_spec(world.moon.clock.time as int)),
            ),
            forall|j: int|
                0 <= j < i ==> shows(
                    #[trigger] records@[4 + j],
                    EntityKind::Alarm,
                    world.alarms@[j].body.position,
                    Some(world.alarms@[j].reflected),
                    None,
                ),
        decreases count - i,
    {
        records.push(
            RenderRecord {
                kind: EntityKind::Alarm,
                position: world.alarms[i].body.position,
                reflected: Some(world.alarms[i].reflected),
                clock_display: None,
            },
        );
        i = i + 1;
    }
    records
}

} // verus!
