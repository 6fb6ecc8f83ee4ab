//! The reflector: a small sensor carried in front of the player that turns
//! the alarms it touches.

use vstd::prelude::*;
use crate::components::Vec2;

verus! {

/// Horizontal offset of the reflector from the player's centre.
pub const REFLECTOR_OFFSET_X: i32 = 0;

/// Vertical offset of the reflector from the player's centre.
pub const REFLECTOR_OFFSET_Y: i32 = 40;

#[derive(Clone, Copy, Debug, PartialEq, Eq, Structural)]
pub enum ReflectorState {
    Active,
    InActive,
}

#[derive(Clone, Copy, Debug, PartialEq, Eq, Structural)]
pub struct Reflector {
    pub state: ReflectorState,
}

/// The reflector as it is attached to the player: its state, its offset
/// from the player's centre and the half extents of its collider.
#[derive(Clone, Copy, Debug, PartialEq, Eq, Structural)]
pub struct ReflectorBundle {
    pub reflector: Reflector,
    pub offset: Vec2,
    pub half_extents: Vec2,
}

/// Whether the reflector key is held at a tick.
#[derive(Clone, Copy, Debug, PartialEq, Eq, Structural)]
pub struct ReflectorToggle(pub bool);

/// The state that a toggle asks for.
pub open spec fn toggled_state(toggle: ReflectorToggle) -> ReflectorState {
    if toggle.0 {
        ReflectorState::Active
    } else {
        ReflectorState::InActive
    }
}

/// The state after a run of toggles: that of the last one, or the state
/// before if there was none.
pub open spec fn state_after(before: ReflectorState, toggles: Seq<ReflectorToggle>) -> ReflectorState {
    if toggles.len() == 0 {
        before
    } else {
        toggled_state(toggles.last())
    }
}

/// Where the reflector is when the player's centre is at `player`: moved
/// by the reflector's offset, and no further than the plane's upper edge.
pub open spec fn reflector_position_spec(player: Vec2) -> Vec2 {
    Vec2 {
        x: player.x,
        y: if player.y + REFLECTOR_OFFSET_Y > i32::MAX {
            i32::MAX
        } else {
            (player.y + REFLECTOR_OFFSET_Y) as i32
        },
    }
}

/// The reflector of a new player: inactive, 40 units above the player's
/// centre, with a collider of half extents 2 by 1.
pub fn spawn_reflector() -> (bundle: ReflectorBundle)
    ensures
        bundle == (ReflectorBundle {
            reflector: Reflector { state: ReflectorState::InActive },
            offset: Vec2 { x: 0, y: 40 },
            half_extents: Vec2 { x: 2, y: 1 },
        }),
{
    ReflectorBundle {
        reflector: Reflector { state: ReflectorState::InActive },
        offset: Vec2 { x: REFLECTOR_OFFSET_X, y: REFLECTOR_OFFSET_Y },
        half_extents: Vec2 { x: 2, y: 1 },
    }
}

/// Applies the toggles of a tick in order: the reflector ends in the state
/// the last one asks for.
pub fn update_reflector_state(toggles: &Vec<ReflectorToggle>, reflector: &mut Reflector)
    ensures
        final(reflector).state == state_after(old(reflector).state, toggles@),
{
    let n: usize = toggles.len();
    if n > 0 {
        if toggles[n - 1].0 {
            reflector.state = ReflectorState::Active;
        } else {
            reflector.state = ReflectorState::InActive;
        }
    }
}

/// The reflector's position in the world: the player's centre moved by the
/// reflector's offset.
pub fn reflector_position(player: Vec2) -> (at: Vec2)
    ensures
        at == reflector_position_spec(player),
{
    let y: i32 = if player.y > i32::MAX - REFLECTOR_OFFSET_Y {
        i32::MAX
    } else {
        player.y + REFLECTOR_OFFSET_Y
    };
    Vec2 { x: player.x, y }
}

impl Reflector {
    /// Whether the reflector is active.
    pub fn is_active(&self) -> (r: bool)
        ensures
            r == (self.state == ReflectorState::Active),
    {
        match self.state {
            ReflectorState::Active => true,
            ReflectorState::InActive => false,
        }
    }
}

} // verus!
