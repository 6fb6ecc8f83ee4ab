//! The per-tick input snapshot and the debouncing of the dash key.

use vstd::prelude::*;

verus! {

/// Which keys are down at a tick.
#[derive(Clone, Copy, Debug, PartialEq, Eq, Structural)]
pub struct Keys {
    pub up: bool,
    pub down: bool,
    pub left: bool,
    pub right: bool,
    pub dash: bool,
    pub reflector: bool,
}

/// The keys of the keyboard that the game reads, each down or not.
#[derive(Clone, Copy, Debug, PartialEq, Eq, Structural)]
pub struct Keyboard {
    pub w: bool,
    pub a: bool,
    pub s: bool,
    pub d: bool,
    pub arrow_up: bool,
    pub arrow_down: bool,
    pub arrow_left: bool,
    pub arrow_right: bool,
    pub space: bool,
    pub left_shift: bool,
}

impl Keys {
    /// What the keyboard means to the game: W, A, S, D or the arrows give
    /// the directions, the space bar dashes, left shift holds the reflector.
    pub fn from_keyboard(keyboard: &Keyboard) -> (keys: Keys)
        ensures
            keys == (Keys {
                up: keyboard.w || keyboard.arrow_up,
                down: keyboard.s || keyboard.arrow_down,
                left: keyboard.a || keyboard.arrow_left,
                right: keyboard.d || keyboard.arrow_right,
                dash: keyboard.space,
                reflector: keyboard.left_shift,
            }),
    {
        Keys {
            up: keyboard.w || keyboard.arrow_up,
            down: keyboard.s || keyboard.arrow_down,
            left: keyboard.a || keyboard.arrow_left,
            right: keyboard.d || keyboard.arrow_right,
            dash: keyboard.space,
            reflector: keyboard.left_shift,
        }
    }
}

/// What the simulation reads at a tick.
#[derive(Clone, Copy, Debug, PartialEq, Eq, Structural)]
pub struct Input {
    pub up: bool,
    pub down: bool,
    pub left: bool,
    pub right: bool,
    /// True only on the tick at which the dash key goes down.
    pub dash_pressed_edge: bool,
    pub reflector_held: bool,
}

impl Input {
    /// Whether any direction key is held.
    pub open spec fn any_direction(self) -> bool {
        self.up || self.down || self.left || self.right
    }

    /// Horizontal axis: right minus left.
    pub open spec fn axis_x(self) -> int {
        (if self.right { 1int } else { 0int }) - (if self.left { 1int } else { 0int })
    }

    /// Vertical axis: up minus down.
    pub open spec fn axis_y(self) -> int {
        (if self.up { 1int } else { 0int }) - (if self.down { 1int } else { 0int })
    }

    /// The snapshot with no key held.
    pub fn idle() -> (input: Input)
        ensures
            input == (Input {
                up: false,
                down: false,
                left: false,
                right: false,
                dash_pressed_edge: false,
                reflector_held: false,
            }),
    {
        Input {
            up: false,
            down: false,
            left: false,
            right: false,
            dash_pressed_edge: false,
            reflector_held: false,
        }
    }
}

/// Remembers whether the dash key was down at the previous tick.
#[derive(Clone, Copy, Debug, PartialEq, Eq, Structural)]
pub struct InputTracker {
    pub dash_was_down: bool,
}

/// Number of dash edges that a run of key states yields, the key having
/// been in state `was_down` before the run.
pub open spec fn dash_edges(was_down: bool, downs: Seq<bool>) -> nat
    decreases downs.len(),
{
    if downs.len() == 0 {
        0
    } else {
        let first: nat = if downs[0] && !was_down {
            1
        } else {
            0
        };
        first + dash_edges(downs[0], downs.subrange(1, downs.len() as int))
    }
}

impl InputTracker {
    /// A tracker that has seen no key down.
    pub fn new() -> (tracker: InputTracker)
        ensures
            !tracker.dash_was_down,
    {
        InputTracker { dash_was_down: false }
    }

    /// Turns the keys of a tick into the snapshot for that tick. The dash
    /// edge is set only if the dash key is down now and was not at the
    /// previous tick.
    pub fn sample(&mut self, keys: Keys) -> (input: Input)
        ensures
            input == (Input {
                up: keys.up,
                down: keys.down,
                left: keys.left,
                right: keys.right,
                dash_pressed_edge: keys.dash && !old(self).dash_was_down,
                reflector_held: keys.reflector,
            }),
            final(self).dash_was_down == keys.dash,
    {
        let edge = keys.dash && !self.dash_was_down;
        self.dash_was_down = keys.dash;
        Input {
            up: keys.up,
            down: keys.down,
            left: keys.left,
            right: keys.right,
            dash_pressed_edge: edge,
            reflector_held: keys.reflector,
        }
    }
}

/// While the dash key stays down it yields no further edge.
pub proof fn lemma_held_key_yields_no_edge(downs: Seq<bool>)
    requires
        forall|i: int| 0 <= i < downs.len() ==> downs[i],
    ensures
        dash_edges(true, downs) == 0,
    decreases downs.len(),
{
    if downs.len() > 0 {
        let rest = downs.subrange(1, downs.len() as int);
        assert forall|i: int| 0 <= i < rest.len() implies rest[i] by {
            assert(rest[i] == downs[i + 1]);
        }
        lemma_held_key_yields_no_edge(rest);
    }
}

/// Holding the dash key over any number of ticks, from a released key,
/// yields exactly one dash edge.
pub proof fn lemma_held_dash_is_one_edge(downs: Seq<bool>)
    requires
        downs.len() >= 1,
        forall|i: int| 0 <= i < downs.len() ==> downs[i],
    ensures
        dash_edges(false, downs) == 1,
{
    let rest = downs.subrange(1, downs.len() as int);
    assert forall|i: int| 0 <= i < rest.len() implies rest[i] by {
        assert(rest[i] == downs[i + 1]);
    }
    lemma_held_key_yields_no_edge(rest);
}

} // verus!
