//! Countdown clocks: the value every entity carries and the text the
//! head-up display shows for it.

use vstd::prelude::*;
use vstd::string::*;

verus! {

/// Tick multiplier of a clock that runs at its natural rate, in thousandths.
pub const NATURAL_SPEED: u32 = 1000;

/// Largest number of minutes the display shows.
pub const DISPLAY_MINUTES_CAP: u64 = 99;

/// `a - b`, held at the lowest value a clock can store.
pub open spec fn sat_sub(a: int, b: int) -> int {
    if a - b < i64::MIN {
        i64::MIN as int
    } else {
        a - b
    }
}

/// The decimal digit `d` as a character.
pub open spec fn digit(d: int) -> char {
    if d == 0 {
        '0'
    } else if d == 1 {
        '1'
    } else if d == 2 {
        '2'
    } else if d == 3 {
        '3'
    } else if d == 4 {
        '4'
    } else if d == 5 {
        '5'
    } else if d == 6 {
        '6'
    } else if d == 7 {
        '7'
    } else if d == 8 {
        '8'
    } else {
        '9'
    }
}

/// Whole seconds shown for a time in milliseconds: none for a time that
/// has run out.
pub open spec fn shown_seconds(time: int) -> int {
    if time <= 0 {
        0
    } else {
        time / 1000
    }
}

/// Minutes shown for a time in milliseconds, capped at two digits.
pub open spec fn shown_minutes(time: int) -> int {
    let m = shown_seconds(time) / 60;
    if m > 99 {
        99
    } else {
        m
    }
}

/// The text `MM:SS` for a time in milliseconds.
pub open spec fn display_spec(time: int) -> Seq<char> {
    let m = shown_minutes(time);
    let s = shown_seconds(time) % 60;
    seq![digit(m / 10), digit(m % 10), ':', digit(s / 10), digit(s % 10)]
}

/// A countdown. `time` is what remains, in milliseconds, and may pass
/// below zero; `speed` is the tick multiplier in thousandths.
#[derive(Clone, Copy, Debug, PartialEq, Eq, Structural)]
pub struct Clock {
    pub time: i64,
    pub speed: u32,
}

fn digit_str(d: u64) -> (s: &'static str)
    requires
        d < 10,
    ensures
        s@ == seq![digit(d as int)],
{
    proof {
        reveal_strlit("0");
        reveal_strlit("1");
        reveal_strlit("2");
        reveal_strlit("3");
        reveal_strlit("4");
        reveal_strlit("5");
        reveal_strlit("6");
        reveal_strlit("7");
        reveal_strlit("8");
        reveal_strlit("9");
    }
    let s: &'static str = if d == 0 {
        "0"
    } else if d == 1 {
        "1"
    } else if d == 2 {
        "2"
    } else if d == 3 {
        "3"
    } else if d == 4 {
        "4"
    } else if d == 5 {
        "5"
    } else if d == 6 {
        "6"
    } else if d == 7 {
        "7"
    } else if d == 8 {
        "8"
    } else {
        "9"
    };
    assert(s@ =~= seq![digit(d as int)]);
    s
}

/// Formats a time in milliseconds as `MM:SS`: zero-padded, a time that has
/// run out shown as `00:00`, minutes capped at 99.
pub fn format_time(time: i64) -> (text: String)
    ensures
        text@ == display_spec(time as int),
{
    let total: u64 = if time <= 0 {
        0
    } else {
        (time as u64) / 1000
    };
    let minutes: u64 = if total / 60 > DISPLAY_MINUTES_CAP {
        DISPLAY_MINUTES_CAP
    } else {
        total / 60
    };
    let seconds: u64 = total % 60;
    let mut text = String::new();
    text.append(digit_str(minutes / 10));
    text.append(digit_str(minutes % 10));
    proof {
        reveal_strlit(":");
    }
    text.append(":");
    text.append(digit_str(seconds / 10));
    text.append(digit_str(seconds % 10));
    assert(text@ =~= display_spec(time as int));
    text
}

impl Clock {
    /// A clock with `time` seconds left that runs at its natural rate.
    pub fn new(time: u32) -> (clock: Clock)
        ensures
            clock.time == time * 1000,
            clock.speed == NATURAL_SPEED,
    {
        Clock { time: (time as i64) * 1000, speed: NATURAL_SPEED }
    }

    /// A clock with `time` milliseconds left that runs at its natural rate.
    pub fn from_millis(time: i64) -> (clock: Clock)
        ensures
            clock.time == time,
            clock.speed == NATURAL_SPEED,
    {
        Clock { time, speed: NATURAL_SPEED }
    }

    /// What one tick of `dt` milliseconds takes off this clock.
    pub open spec fn tick_amount(self, dt: u32) -> int {
        (self.speed * dt) / 1000
    }

    /// The time's up: nothing remains.
    pub open spec fn expired(self) -> bool {
        self.time <= 0
    }

    fn lower(&mut self, amount: u64)
        requires
            amount <= i64::MAX,
        ensures
            final(self).time == sat_sub(old(self).time as int, amount as int),
            final(self).speed == old(self).speed,
    {
        let amount: i64 = amount as i64;
        if self.time < i64::MIN + amount {
            self.time = i64::MIN;
        } else {
            self.time = self.time - amount;
        }
    }

    /// Takes `seconds` off the clock at once.
    pub fn sub_seconds(&mut self, seconds: u32)
        ensures
            final(self).time == sat_sub(old(self).time as int, seconds * 1000),
            final(self).speed == old(self).speed,
            final(self).time <= old(self).time,
    {
        self.lower((seconds as u64) * 1000);
    }

    /// Lets `dt` milliseconds pass: the clock loses `speed * dt / 1000`.
    pub fn tick(&mut self, dt: u32)
        ensures
            final(self).time == sat_sub(old(self).time as int, old(self).tick_amount(dt)),
            final(self).speed == old(self).speed,
            final(self).time <= old(self).time,
    {
        assert((self.speed as u64) * (dt as u64) <= 0xffff_ffff * 0xffff_ffff) by (nonlinear_arith)
            requires
                self.speed <= 0xffff_ffff,
                dt <= 0xffff_ffff,
        ;
        let amount: u64 = ((self.speed as u64) * (dt as u64)) / 1000;
        self.lower(amount);
    }

    /// Whole minutes that remain, rounded down.
    pub fn minutes(&self) -> (m: i64)
        ensures
            m == self.time as int / 60_000,
    {
        if self.time >= 0 {
            self.time / 60_000
        } else {
            let below: i64 = -(self.time + 1);
            -(below / 60_000) - 1
        }
    }

    /// Whole seconds that remain of the minute under way, rounded down.
    pub fn seconds(&self) -> (s: i64)
        ensures
            s == (self.time as int % 60_000) / 1000,
            0 <= s < 60,
    {
        if self.time >= 0 {
            (self.time % 60_000) / 1000
        } else {
            let below: i64 = -(self.time + 1);
            (59_999 - below % 60_000) / 1000
        }
    }

    /// Whether nothing remains on the clock.
    pub fn is_expired(&self) -> (r: bool)
        ensures
            r == self.expired(),
    {
        self.time <= 0
    }

    /// The clock's text for the display, `MM:SS`.
    pub fn display(&self) -> (text: String)
        ensures
            text@ == display_spec(self.time as int),
    {
        format_time(self.time)
    }
}

} // verus!
