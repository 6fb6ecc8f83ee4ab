//! The game as a whole: its state and, while a game is under way, its
//! world. The world is built when a game starts and destroyed when it ends.

use vstd::prelude::*;
use bevy_rapier2d::prelude::NarrowPhase;
use crate::alarm::Contact;
use crate::components::Arena;
use crate::input::Input;
use crate::physics::{contacts_of, contacts_spec, Bodies};
use crate::state::{GameState, Outcome};
use crate::world::{is_begun, is_ended, is_fresh, World};

verus! {

/// The state of the game and the world of the game under way.
pub struct Game {
    pub state: GameState,
    pub world: Option<World>,
}

/// How a game under way in `world` stands after the second half of a
/// tick: the outcome is what the clocks call for once the contacts are
/// resolved; the game goes on in the world so changed, or it has ended and
/// the world is destroyed.
pub open spec fn ended_as(
    world: World,
    state: GameState,
    left: Option<World>,
    contacts: Seq<Contact>,
    outcome: Outcome,
) -> bool {
    &&& outcome == world.outcome_after(contacts)
    &&& state == GameState::Playing.after_tick(outcome)
    &&& outcome == Outcome::Continue ==> left.is_some() && is_ended(world, left.unwrap(), contacts)
    &&& outcome != Outcome::Continue ==> left.is_none()
}

/// `after` is `before` moved through the first half of a tick in which
/// `spawned` alarms were created: a game under way has moved as its world
/// has, and outside a game nothing has happened.
pub open spec fn is_tick_begun(
    before: Game,
    after: Game,
    arena: Arena,
    input: Input,
    dt: u32,
    spawned: int,
) -> bool {
    &&& after.state == before.state
    &&& before.state == GameState::Playing ==> after.world.is_some() && is_begun(
        before.world.unwrap(),
        after.world.unwrap(),
        arena,
        input,
        dt,
        spawned,
    )
    &&& before.state != GameState::Playing ==> after.world.is_none() && spawned == 0
}

/// `after` is `before` moved through the second half of a tick that gave
/// `outcome`: see `ended_as` for a game under way; outside a game nothing
/// has happened.
pub open spec fn is_tick_ended(
    before: Game,
    after: Game,
    contacts: Seq<Contact>,
    outcome: Outcome,
) -> bool {
    &&& before.state == GameState::Playing ==> ended_as(
        before.world.unwrap(),
        after.state,
        after.world,
        contacts,
        outcome,
    )
    &&& before.state != GameState::Playing ==> outcome == Outcome::Continue && after.state
        == before.state && after.world.is_none()
}

/// What can go wrong in a way that ends the program.
#[derive(Clone, Copy, Debug, PartialEq, Eq, Structural)]
pub enum GameError {
    /// An asset that the game needs was not found.
    AssetMissing,
    /// The game is in a state that its rules exclude.
    InvariantViolation,
    /// The physics world failed to make its step.
    PhysicsStepError,
}

impl GameError {
    /// What the shell tells the user about the error.
    pub open spec fn message_spec(self) -> Seq<char> {
        match self {
            GameError::AssetMissing => "a required asset was not found"@,
            GameError::InvariantViolation => "the game is in a state that its rules exclude"@,
            GameError::PhysicsStepError => "the physics world failed to make its step"@,
        }
    }

    /// What the shell tells the user about the error.
    pub fn message(self) -> (text: &'static str)
        ensures
            text@ == self.message_spec(),
    {
        match self {
            GameError::AssetMissing => "a required asset was not found",
            GameError::InvariantViolation => "the game is in a state that its rules exclude",
            GameError::PhysicsStepError => "the physics world failed to make its step",
        }
    }
}

impl Game {
    /// The first half of a tick for a caller that cannot vouch for the
    /// game: an unusable game or arena is refused and left as it is.
    pub fn try_begin_tick(
        &mut self,
        arena: &Arena,
        input: &Input,
        dt: u32,
    ) -> (result: Result<usize, GameError>)
        ensures
            old(self).wf() && arena.wf() ==> result.is_ok() && final(self).wf() && is_tick_begun(
                *old(self),
                *final(self),
                *arena,
                *input,
                dt,
                result.unwrap() as int,
            ),
            !(old(self).wf() && arena.wf()) ==> result == Err::<usize, GameError>(
                GameError::InvariantViolation,
            ) && *final(self) == *old(self),
    {
        if self.is_wf() && arena.scale >= 1 {
            Ok(self.begin_tick(arena, input, dt))
        } else {
            Err(GameError::InvariantViolation)
        }
    }

    /// The second half of a tick for a caller that cannot vouch for the
    /// game: an unusable game is refused and left as it is.
    pub fn try_end_tick(&mut self, contacts: &Vec<Contact>) -> (result: Result<Outcome, GameError>)
        ensures
            old(self).wf() ==> result.is_ok() && final(self).wf() && is_tick_ended(
                *old(self),
                *final(self),
                contacts@,
                result.unwrap(),
            ),
            !old(self).wf() ==> result == Err::<Outcome, GameError>(GameError::InvariantViolation)
                && *final(self) == *old(self),
    {
        if self.is_wf() {
            Ok(self.end_tick(contacts))
        } else {
            Err(GameError::InvariantViolation)
        }
    }

    /// The second half of a tick with the contacts taken from the narrow
    /// phase of the physics world: the tick ends as `try_end_tick` ends it
    /// for the contacts that the narrow phase holds for each alarm.
    pub fn try_resolve(
        &mut self,
        narrow_phase: &NarrowPhase,
        bodies: &Bodies,
    ) -> (result: Result<Outcome, GameError>)
        ensures
            old(self).wf() ==> result.is_ok() && final(self).wf(),
            old(self).wf() ==> is_tick_ended(
                *old(self),
                *final(self),
                old(self).reported_contacts(*narrow_phase, *bodies),
                result.unwrap(),
            ),
            !old(self).wf() ==> result == Err::<Outcome, GameError>(GameError::InvariantViolation)
                && *final(self) == *old(self),
    {
        let contacts: Vec<Contact> = match &self.world {
            Some(world) => contacts_of(narrow_phase, bodies, &world.alarms),
            None => Vec::new(),
        };
        self.try_end_tick(&contacts)
    }

    /// The contacts that the narrow phase holds for the alarms of the game
    /// under way, in the alarms' order: none outside a game.
    pub open spec fn reported_contacts(
        &self,
        narrow_phase: NarrowPhase,
        bodies: Bodies,
    ) -> Seq<Contact> {
        match self.world {
            Some(world) => contacts_spec(narrow_phase, bodies, world.alarms@),
            None => Seq::empty(),
        }
    }

    /// There is a world exactly while a game is under way, and it is usable.
    pub open spec fn wf(&self) -> bool {
        &&& (self.state == GameState::Playing) == self.world.is_some()
        &&& self.world.is_some() ==> self.world.unwrap().wf()
    }

    /// The game as the program starts: loading, without a world.
    pub fn new() -> (game: Game)
        ensures
            game.state == GameState::Loading,
            game.world.is_none(),
            game.wf(),
    {
        Game { state: GameState::Loading, world: None }
    }

    /// Checks that the game is usable.
    pub fn is_wf(&self) -> (ok: bool)
        ensures
            ok == self.wf(),
    {
        match &self.world {
            Some(world) => self.state.is_playing() && world.is_wf(),
            None => !self.state.is_playing(),
        }
    }

    /// Every asset is ready: loading gives way to the menu.
    pub fn assets_loaded(&mut self)
        requires
            old(self).wf(),
        ensures
            final(self).wf(),
            final(self).state == old(self).state.after_load(),
            final(self).world == old(self).world,
    {
        self.state = self.state.assets_loaded();
    }

    /// The play or retry button is activated: from the menu or an end
    /// screen a game starts in a world built anew. While loading or
    /// playing nothing changes.
    pub fn click_play_button(&mut self)
        requires
            old(self).wf(),
        ensures
            final(self).wf(),
            final(self).state == old(self).state.after_click(),
            old(self).state == GameState::Loading || old(self).state == GameState::Playing
                ==> final(self).world == old(self).world,
            old(self).state != GameState::Loading && old(self).state != GameState::Playing
                ==> final(self).world.is_some() && is_fresh(final(self).world.unwrap()),
    {
        match self.state {
            GameState::Loading => {},
            GameState::Playing => {},
            _ => {
                self.state = self.state.click_play_button();
                self.world = Some(World::new());
            },
        }
    }

    /// The first half of a tick of `dt` milliseconds; see
    /// `World::begin_tick`. Outside a game nothing happens.
    pub fn begin_tick(&mut self, arena: &Arena, input: &Input, dt: u32) -> (spawned: usize)
        requires
            old(self).wf(),
            arena.wf(),
        ensures
            final(self).wf(),
            is_tick_begun(*old(self), *final(self), *arena, *input, dt, spawned as int),
    {
        match self.state {
            GameState::Playing => {
                let taken = self.world.take();
                let mut world: World = taken.unwrap();
                let spawned: usize = world.begin_tick(arena, input, dt);
                self.world = Some(world);
                spawned
            },
            _ => 0,
        }
    }

    /// The second half of a tick; see `World::end_tick`. Where the clocks
    /// end the game, the world is destroyed and the state moves to the end
    /// screen. Outside a game nothing happens.
    pub fn end_tick(&mut self, contacts: &Vec<Contact>) -> (outcome: Outcome)
        requires
            old(self).wf(),
        ensures
            final(self).wf(),
            is_tick_ended(*old(self), *final(self), contacts@, outcome),
            final(self).state == GameState::GameWin && old(self).state == GameState::Playing
                ==> old(self).world.unwrap().sun_time_after(contacts@) <= 0,
            final(self).state == GameState::GameWin && old(self).state == GameState::Playing
                ==> old(self).world.unwrap().moon_time_after(contacts@) <= 0,
            final(self).state == GameState::GameOver && old(self).state == GameState::Playing
                ==> old(self).world.unwrap().player_time_after(contacts@) <= 0,
    {
        match self.state {
            GameState::Playing => {
                let taken = self.world.take();
                let mut world: World = taken.unwrap();
                let outcome: Outcome = world.end_tick(contacts);
                self.state = self.state.tick_ended(outcome);
                match outcome {
                    Outcome::Continue => {
                        self.world = Some(world);
                    },
                    _ => {},
                }
                outcome
            },
            _ => Outcome::Continue,
        }
    }
}

} // verus!
