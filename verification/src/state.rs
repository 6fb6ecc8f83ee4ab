//! The states of the game as a whole and the moves between them.

use vstd::prelude::*;
use crate::clock::Clock;

verus! {

/// Where the game as a whole stands.
#[derive(Clone, Copy, Debug, PartialEq, Eq, Hash, Structural)]
pub enum GameState {
    Loading,
    Menu,
    Playing,
    GameOver,
    GameWin,
}

/// What the clocks say at the end of a tick.
#[derive(Clone, Copy, Debug, PartialEq, Eq, Structural)]
pub enum Outcome {
    /// The game goes on.
    Continue,
    /// The player's clock has run out.
    GameOver,
    /// Both grandfathers' clocks have run out, the player's has not.
    GameWin,
}

/// The outcome that three clocks call for. A player whose clock has run
/// out has lost, whatever the grandfathers' clocks show.
pub open spec fn outcome_of(player: Clock, sun: Clock, moon: Clock) -> Outcome {
    outcome_of_times(player.time as int, sun.time as int, moon.time as int)
}

/// The outcome that three remaining times, in milliseconds, call for.
pub open spec fn outcome_of_times(player: int, sun: int, moon: int) -> Outcome {
    if player <= 0 {
        Outcome::GameOver
    } else if sun <= 0 && moon <= 0 {
        Outcome::GameWin
    } else {
        Outcome::Continue
    }
}

/// Reads the outcome of a tick off the three clocks.
pub fn check_clocks(player: &Clock, sun: &Clock, moon: &Clock) -> (outcome: Outcome)
    ensures
        outcome == outcome_of(*player, *sun, *moon),
        outcome == Outcome::GameOver ==> player.time <= 0,
        outcome == Outcome::GameWin ==> sun.time <= 0 && moon.time <= 0,
{
    if player.is_expired() {
        Outcome::GameOver
    } else if sun.is_expired() && moon.is_expired() {
        Outcome::GameWin
    } else {
        Outcome::Continue
    }
}

impl GameState {
    /// The state once every asset is ready.
    pub open spec fn after_load(self) -> GameState {
        if self == GameState::Loading {
            GameState::Menu
        } else {
            self
        }
    }

    /// The state once the play or retry button is activated.
    pub open spec fn after_click(self) -> GameState {
        match self {
            GameState::Menu | GameState::GameOver | GameState::GameWin => GameState::Playing,
            _ => self,
        }
    }

    /// The state once a tick has ended with `outcome`.
    pub open spec fn after_tick(self, outcome: Outcome) -> GameState {
        if self == GameState::Playing {
            match outcome {
                Outcome::Continue => GameState::Playing,
                Outcome::GameOver => GameState::GameOver,
                Outcome::GameWin => GameState::GameWin,
            }
        } else {
            self
        }
    }

    /// Every asset is ready: loading gives way to the menu.
    pub fn assets_loaded(self) -> (next: GameState)
        ensures
            next == self.after_load(),
    {
        match self {
            GameState::Loading => GameState::Menu,
            _ => self,
        }
    }

    /// The play button of the menu, or the retry button of an end screen,
    /// is activated: a game starts.
    pub fn click_play_button(self) -> (next: GameState)
        ensures
            next == self.after_click(),
    {
        match self {
            GameState::Menu => GameState::Playing,
            GameState::GameOver => GameState::Playing,
            GameState::GameWin => GameState::Playing,
            _ => self,
        }
    }

    /// A tick has ended with `outcome`: a game under way ends where the
    /// outcome says so.
    pub fn tick_ended(self, outcome: Outcome) -> (next: GameState)
        ensures
            next == self.after_tick(outcome),
    {
        match self {
            GameState::Playing => match outcome {
                Outcome::Continue => GameState::Playing,
                Outcome::GameOver => GameState::GameOver,
                Outcome::GameWin => GameState::GameWin,
            },
            _ => self,
        }
    }

    /// Whether a game is under way.
    pub fn is_playing(self) -> (r: bool)
        ensures
            r == (self == GameState::Playing),
    {
        match self {
            GameState::Playing => true,
            _ => false,
        }
    }
}

} // verus!
