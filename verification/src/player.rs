//! The player controller: walking, dashing and stopping at the walls.

use vstd::prelude::*;
use crate::clock::Clock;
use crate::components::{
    Arena, Body, BodyKind, Dash, Player, Speed, Vec2, DASH_DURATION, DASH_SPEED, PLAYER_SPEED,
    WALL_MARGIN_X, WALL_MARGIN_Y,
};
use crate::input::Input;
use crate::math::{scaled_direction, scaled_direction_spec};
use crate::reflector::ReflectorToggle;

verus! {

/// Seconds on the player's clock at the start of a game.
pub const PLAYER_START_SECONDS: u32 = 300;

/// Whether the player moves at dash speed this tick: a dash is under way,
/// or one starts because the dash key went down while a direction is held.
pub open spec fn dash_applies(dash: Dash, input: Input) -> bool {
    dash.is_dashing || (input.dash_pressed_edge && input.any_direction())
}

/// The speed at which the player moves this tick.
pub open spec fn speed_used(player: Player, input: Input) -> int {
    if dash_applies(player.dash, input) {
        player.dash.speed as int
    } else {
        player.speed.0 as int
    }
}

/// The dash after a tick of `dt` milliseconds. A dash under way runs down
/// and is not extended by a new press; otherwise a press with a direction
/// held starts one.
pub open spec fn dash_after(dash: Dash, input: Input, dt: u32) -> Dash {
    if dash.is_dashing {
        dash.ticked(dt)
    } else if input.dash_pressed_edge && input.any_direction() {
        Dash { speed: dash.speed, is_dashing: true, duration: dash.duration }
    } else {
        dash
    }
}

/// The velocity the input asks for, before the walls are considered.
pub open spec fn free_velocity(player: Player, input: Input, scale: int) -> (int, int) {
    if input.axis_x() == 0 && input.axis_y() == 0 {
        (0, 0)
    } else {
        scaled_direction_spec(input.axis_x(), input.axis_y(), speed_used(player, input), scale)
    }
}

/// The player is at or beyond a side wall's margin and pushes outward.
pub open spec fn stopped_x(arena: Arena, position: Vec2, input: Input) -> bool {
    (position.x <= arena.left() && input.left) || (position.x >= arena.right() && input.right)
}

/// The player is at or beyond the top or bottom margin and pushes outward.
pub open spec fn stopped_y(arena: Arena, position: Vec2, input: Input) -> bool {
    (position.y <= arena.bottom() && input.down) || (position.y >= arena.top() && input.up)
}

/// The player's velocity for this tick: the velocity the input asks for,
/// with each component zeroed that would carry the player past a wall.
pub open spec fn player_velocity(arena: Arena, player: Player, input: Input) -> (int, int) {
    let v = free_velocity(player, input, arena.scale as int);
    (
        if stopped_x(arena, player.body.position, input) {
            0
        } else {
            v.0
        },
        if stopped_y(arena, player.body.position, input) {
            0
        } else {
            v.1
        },
    )
}

/// `after` is `before` moved by one tick of the controller.
pub open spec fn is_moved(arena: Arena, input: Input, dt: u32, before: Player, after: Player) -> bool {
    &&& (after.body.velocity.x as int, after.body.velocity.y as int) == player_velocity(
        arena,
        before,
        input,
    )
    &&& after.dash == dash_after(before.dash, input, dt)
    &&& after.clock == before.clock
    &&& after.speed == before.speed
    &&& after.body.position == before.body.position
    &&& after.body.kind == before.body.kind
    &&& after.body.half_extents == before.body.half_extents
}

/// A dash starts only on the tick at which the dash key goes down, and
/// only from rest: a key that is held starts no second dash, and a press
/// during a dash does not extend it.
pub proof fn lemma_dash_starts_on_an_edge(dash: Dash, input: Input, dt: u32)
    ensures
        !dash.is_dashing && dash_after(dash, input, dt).is_dashing ==> input.dash_pressed_edge
            && input.any_direction(),
        !input.dash_pressed_edge && !dash.is_dashing ==> dash_after(dash, input, dt) == dash,
        dash.is_dashing ==> dash_after(dash, input, dt) == dash.ticked(dt),
{
}

/// A player at or beyond a wall's margin who pushes outward gets no
/// velocity toward that wall, at any speed and in or out of a dash.
pub proof fn lemma_walls_stop_outward_motion(arena: Arena, player: Player, input: Input)
    ensures
        player.body.position.x <= arena.left() && input.left ==> player_velocity(
            arena,
            player,
            input,
        ).0 == 0,
        player.body.position.x >= arena.right() && input.right ==> player_velocity(
            arena,
            player,
            input,
        ).0 == 0,
        player.body.position.y <= arena.bottom() && input.down ==> player_velocity(
            arena,
            player,
            input,
        ).1 == 0,
        player.body.position.y >= arena.top() && input.up ==> player_velocity(
            arena,
            player,
            input,
        ).1 == 0,
{
}

/// A dash under way ends once its duration is used up, whatever the input:
/// after ticks that add up to the duration it is over.
pub proof fn lemma_dash_runs_out(dash: Dash, input: Input, dt: u32)
    requires
        dash.is_dashing,
        dash.wf(),
    ensures
        dash_after(dash, input, dt).wf(),
        dt >= dash.duration ==> !dash_after(dash, input, dt).is_dashing && dash_after(
            dash,
            input,
            dt,
        ).duration == DASH_DURATION,
        dt < dash.duration ==> dash_after(dash, input, dt).is_dashing && dash_after(
            dash,
            input,
            dt,
        ).duration == dash.duration - dt,
{
}

/// The player at the start of a game.
pub open spec fn new_player() -> Player {
    Player {
        clock: Clock { time: 300_000, speed: 1000 },
        dash: Dash { speed: 1200, is_dashing: false, duration: 100 },
        speed: Speed(300),
        body: Body {
            kind: BodyKind::Dynamic,
            position: Vec2 { x: 0, y: 0 },
            velocity: Vec2 { x: 0, y: 0 },
            half_extents: Vec2 { x: 5, y: 15 },
        },
    }
}

/// The player at the start of a game: 300 seconds on the clock, at rest in
/// the middle of the arena.
pub fn spawn_player() -> (player: Player)
    ensures
        player == new_player(),
        player.wf(),
{
    Player {
        clock: Clock::new(PLAYER_START_SECONDS),
        dash: Dash { speed: DASH_SPEED, is_dashing: false, duration: DASH_DURATION },
        speed: Speed(PLAYER_SPEED),
        body: Body {
            kind: BodyKind::Dynamic,
            position: Vec2::zero(),
            velocity: Vec2::zero(),
            half_extents: Vec2::new(5, 15),
        },
    }
}

/// The toggle that a tick sends to the reflector: on while the key is held.
pub fn toggle_reflector(input: &Input) -> (toggle: ReflectorToggle)
    ensures
        toggle.0 == input.reflector_held,
{
    ReflectorToggle(input.reflector_held)
}

/// One tick of the player controller: sets the player's velocity from the
/// input and advances the dash by `dt` milliseconds.
pub fn move_player(arena: &Arena, input: &Input, dt: u32, player: &mut Player)
    requires
        arena.wf(),
        old(player).wf(),
    ensures
        is_moved(*arena, *input, dt, *old(player), *final(player)),
        final(player).wf(),
{
    let right: i64 = if input.right {
        1
    } else {
        0
    };
    let left: i64 = if input.left {
        1
    } else {
        0
    };
    let up: i64 = if input.up {
        1
    } else {
        0
    };
    let down: i64 = if input.down {
        1
    } else {
        0
    };
    let axis_x: i64 = right - left;
    let axis_y: i64 = up - down;
    let any: bool = input.up || input.down || input.left || input.right;
    let starts: bool = input.dash_pressed_edge && any;
    let speed: u32 = if player.dash.is_dashing || starts {
        player.dash.speed
    } else {
        player.speed.0
    };
    let mut velocity: Vec2 = if axis_x == 0 && axis_y == 0 {
        Vec2::zero()
    } else {
        scaled_direction(axis_x, axis_y, speed, arena.scale)
    };
    if player.dash.is_dashing {
        if player.dash.duration <= dt {
            player.dash.is_dashing = false;
            player.dash.duration = DASH_DURATION;
        } else {
            player.dash.duration = player.dash.duration - dt;
        }
    } else if starts {
        player.dash.is_dashing = true;
    }
    let x: i64 = player.body.position.x as i64;
    let y: i64 = player.body.position.y as i64;
    let width: i64 = arena.width as i64;
    let height: i64 = arena.height as i64;
    let half_width: i64 = (arena.width / 2) as i64;
    let half_height: i64 = (arena.height / 2) as i64;
    if (x <= half_width - width + WALL_MARGIN_X && input.left) || (x >= half_width - WALL_MARGIN_X
        && input.right) {
        velocity.x = 0;
    }
    if (y <= half_height - height + WALL_MARGIN_Y && input.down) || (y >= half_height
        - WALL_MARGIN_Y && input.up) {
        velocity.y = 0;
    }
    player.body.velocity = velocity;
}

/// Whether the game is lost: nothing remains on the player's clock.
pub fn handle_game_over(player: &Player) -> (lost: bool)
    ensures
        lost == player.clock.expired(),
{
    player.clock.is_expired()
}

} // verus!
