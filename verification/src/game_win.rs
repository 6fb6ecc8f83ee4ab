//! The counter of the win screen, which runs upward at twenty times the
//! natural rate.

use vstd::prelude::*;
use crate::clock::{display_spec, format_time};

verus! {

/// Seconds on the counter when the win screen opens.
pub const FAST_TIME_START_SECONDS: i64 = 800;

/// How many milliseconds the counter gains per millisecond.
pub const FAST_TIME_RATE: i64 = 20;

/// The counter of the win screen, in milliseconds.
#[derive(Clone, Copy, Debug, PartialEq, Eq, Structural)]
pub struct FastTime {
    pub time: i64,
}

/// `time` advanced by `dt` milliseconds of the win screen, held at the
/// highest value the counter can store.
pub open spec fn fast_forward(time: int, dt: int) -> int {
    if time + FAST_TIME_RATE * dt > i64::MAX {
        i64::MAX as int
    } else {
        time + FAST_TIME_RATE * dt
    }
}

impl FastTime {
    /// The counter as the win screen opens: 800 seconds.
    pub fn new() -> (timer: FastTime)
        ensures
            timer.time == 800_000,
    {
        FastTime { time: FAST_TIME_START_SECONDS * 1000 }
    }
}

/// Advances the counter by twenty times `dt` milliseconds and returns its
/// text, `MM:SS`.
pub fn update_timer(timer: &mut FastTime, dt: u32) -> (text: String)
    ensures
        final(timer).time == fast_forward(old(timer).time as int, dt as int),
        text@ == display_spec(final(timer).time as int),
{
    let gain: i64 = FAST_TIME_RATE * (dt as i64);
    if timer.time > i64::MAX - gain {
        timer.time = i64::MAX;
    } else {
        timer.time = timer.time + gain;
    }
    format_time(timer.time)
}

} // verus!
