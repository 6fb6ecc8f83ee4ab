//! The simulated world and the order in which a tick moves it. The physics
//! step lies between the two halves of a tick: `begin_tick` sets the
//! velocities that the step integrates, `end_tick` resolves the contacts
//! that the step reports.

use vstd::prelude::*;
use crate::alarm::{
    all_wf, cleanup_alarms, handle_collisions, is_steered, moon_hits, move_alarm, new_alarm,
    player_hits, sun_hits, survivors, unreflected, Alarm, Contact, SpawnAlarmEvent, PENALTY_MILLIS,
};
use crate::clock::sat_sub;
use crate::components::{Arena, Player};
use crate::grandfather::{emitted, new_moon, new_sun, spawn_grandfather, Grandfather, EMIT_PERIOD};
use crate::input::Input;
use crate::player::{is_moved, move_player, new_player, spawn_player, toggle_reflector};
use crate::reflector::{
    spawn_reflector, toggled_state, update_reflector_state, Reflector, ReflectorState,
    ReflectorToggle,
};
use crate::state::{check_clocks, outcome_of_times, Outcome};

verus! {

/// Milliseconds of simulated time between two cleanups of reflected alarms.
pub const CLEANUP_PERIOD: u64 = 10_000;

/// Everything that is simulated while a game is under way.
pub struct World {
    pub player: Player,
    pub reflector: Reflector,
    pub sun: Grandfather,
    pub moon: Grandfather,
    pub alarms: Vec<Alarm>,
    /// Milliseconds of simulated time since the game started.
    pub elapsed: u64,
    /// A cleanup of reflected alarms fell due and has not been made.
    pub cleanup_due: bool,
}

/// Simulated time `dt` milliseconds after `elapsed`, held at the highest
/// value that can be stored.
pub open spec fn advanced(elapsed: u64, dt: u32) -> int {
    if elapsed + dt > u64::MAX {
        u64::MAX as int
    } else {
        elapsed + dt
    }
}

/// How many emissions fall due between two points of simulated time.
pub open spec fn pulses_between(from: int, to: int) -> int {
    to / (EMIT_PERIOD as int) - from / (EMIT_PERIOD as int)
}

/// Whether a cleanup falls due between two points of simulated time.
pub open spec fn cleanup_between(from: int, to: int) -> bool {
    to / (CLEANUP_PERIOD as int) > from / (CLEANUP_PERIOD as int)
}

/// The alarms that `pulses` emissions of the same events create.
pub open spec fn pulse_alarms(events: Seq<SpawnAlarmEvent>, pulses: int) -> Seq<Alarm>
    decreases pulses,
{
    if pulses <= 0 {
        Seq::empty()
    } else {
        pulse_alarms(events, pulses - 1) + Seq::new(events.len(), |j: int| new_alarm(events[j].0))
    }
}

/// Creates the alarms of `pulses` emissions behind those that exist.
pub fn emit_pulses(events: &Vec<SpawnAlarmEvent>, pulses: u64, alarms: &mut Vec<Alarm>)
    ensures
        final(alarms)@ == old(alarms)@ + pulse_alarms(events@, pulses as int),
        final(alarms)@.len() == old(alarms)@.len() + pulses * events@.len(),
        all_wf(old(alarms)@) ==> all_wf(final(alarms)@),
{
    let ghost before = alarms@;
    let mut k: u64 = 0;
    assert(alarms@ =~= before + pulse_alarms(events@, 0));
    while k < pulses
        invariant
            k <= pulses,
            alarms@ == before + pulse_alarms(events@, k as int),
            alarms@.len() == before.len() + k * events@.len(),
            all_wf(before) ==> all_wf(alarms@),
        decreases pulses - k,
    {
        let ghost now = alarms@;
        crate::alarm::spawn_alarm(events, alarms);
        proof {
            let fresh = Seq::new(events@.len(), |j: int| new_alarm(events@[j].0));
            assert(alarms@ == now + fresh);
            assert(pulse_alarms(events@, k + 1) == pulse_alarms(events@, k as int) + fresh);
            assert(alarms@ =~= before + pulse_alarms(events@, k + 1));
            assert((k + 1) * events@.len() == k * events@.len() + events@.len())
                by (nonlinear_arith);
        }
        k = k + 1;
    }
}

fn emits_on_grid(grandfather: &Grandfather) -> (ok: bool)
    ensures
        ok == grandfather.wf(),
{
    let x: i64 = grandfather.body.position.x as i64 + grandfather.spawn_offset.x as i64;
    let y: i64 = grandfather.body.position.y as i64 + grandfather.spawn_offset.y as i64;
    -0x8000_0000 <= x && x <= 0x7fff_ffff && -0x8000_0000 <= y && y <= 0x7fff_ffff
}

/// There are never more alarms than two for each three seconds of
/// simulated time begun since the game started.
pub proof fn lemma_alarm_population_bounded(world: World)
    requires
        world.wf(),
    ensures
        world.alarms@.len() <= 2 * ((world.elapsed + EMIT_PERIOD - 1) / (EMIT_PERIOD as int)),
{
}

/// `after` is `before` moved through the first half of a tick of `dt`
/// milliseconds, in which `spawned` alarms were created. Every clock has
/// ticked; the player's velocity and dash follow the input; the reflector
/// follows its key; every alarm that existed is steered at the player; the
/// alarms of the emissions that fell due stand behind them, at rest.
pub open spec fn is_begun(
    before: World,
    after: World,
    arena: Arena,
    input: Input,
    dt: u32,
    spawned: int,
) -> bool {
    &&& after.elapsed == advanced(before.elapsed, dt)
    &&& after.player.clock.time == sat_sub(
        before.player.clock.time as int,
        before.player.clock.tick_amount(dt),
    )
    &&& after.sun.clock.time == sat_sub(
        before.sun.clock.time as int,
        before.sun.clock.tick_amount(dt),
    )
    &&& after.moon.clock.time == sat_sub(
        before.moon.clock.time as int,
        before.moon.clock.tick_amount(dt),
    )
    &&& after.player.clock.speed == before.player.clock.speed
    &&& after.sun.clock.speed == before.sun.clock.speed
    &&& after.moon.clock.speed == before.moon.clock.speed
    &&& after.sun == (Grandfather { clock: after.sun.clock, ..before.sun })
    &&& after.moon == (Grandfather { clock: after.moon.clock, ..before.moon })
    &&& is_moved(
        arena,
        input,
        dt,
        (Player { clock: after.player.clock, ..before.player }),
        after.player,
    )
    &&& after.reflector.state == toggled_state(ReflectorToggle(input.reflector_held))
    &&& after.cleanup_due == (before.cleanup_due || cleanup_between(
        before.elapsed as int,
        after.elapsed as int,
    ))
    &&& after.alarms@.len() == before.alarms@.len() + spawned
    &&& forall|i: int|
        0 <= i < before.alarms@.len() ==> is_steered(
            before.alarms@[i],
            #[trigger] after.alarms@[i],
            before.player.body.position,
            arena.scale as int,
        )
    &&& after.alarms@.subrange(before.alarms@.len() as int, after.alarms@.len() as int)
        == pulse_alarms(
        emitted(after.sun, after.moon),
        pulses_between(before.elapsed as int, after.elapsed as int),
    )
}

/// `after` is `before` moved through the second half of a tick: the
/// contacts are resolved, a cleanup that was due is made, and nothing else
/// has changed.
pub open spec fn is_ended(before: World, after: World, contacts: Seq<Contact>) -> bool {
    &&& after.alarms@ == before.alarms_after(contacts)
    &&& after.player.clock.time == before.player_time_after(contacts)
    &&& after.sun.clock.time == before.sun_time_after(contacts)
    &&& after.moon.clock.time == before.moon_time_after(contacts)
    &&& after.player.clock.speed == before.player.clock.speed
    &&& after.sun.clock.speed == before.sun.clock.speed
    &&& after.moon.clock.speed == before.moon.clock.speed
    &&& after.player == (Player { clock: after.player.clock, ..before.player })
    &&& after.sun == (Grandfather { clock: after.sun.clock, ..before.sun })
    &&& after.moon == (Grandfather { clock: after.moon.clock, ..before.moon })
    &&& after.reflector == before.reflector
    &&& after.elapsed == before.elapsed
    &&& !after.cleanup_due
}

/// No count of hits is negative.
pub proof fn lemma_hits_nonnegative(contacts: Seq<Contact>, n: int)
    ensures
        player_hits(contacts, n) >= 0,
        sun_hits(contacts, n) >= 0,
        moon_hits(contacts, n) >= 0,
    decreases n,
{
    if n > 0 {
        lemma_hits_nonnegative(contacts, n - 1);
    }
}

/// No clock rises in the first half of a tick.
pub proof fn lemma_begin_never_raises_a_clock(
    before: World,
    after: World,
    arena: Arena,
    input: Input,
    dt: u32,
    spawned: int,
)
    requires
        is_begun(before, after, arena, input, dt, spawned),
    ensures
        after.player.clock.time <= before.player.clock.time,
        after.sun.clock.time <= before.sun.clock.time,
        after.moon.clock.time <= before.moon.clock.time,
{
    assert(before.player.clock.tick_amount(dt) >= 0 && before.sun.clock.tick_amount(dt) >= 0
        && before.moon.clock.tick_amount(dt) >= 0) by (nonlinear_arith);
}

/// No clock rises in the second half of a tick.
pub proof fn lemma_end_never_raises_a_clock(before: World, after: World, contacts: Seq<Contact>)
    requires
        is_ended(before, after, contacts),
    ensures
        after.player.clock.time <= before.player.clock.time,
        after.sun.clock.time <= before.sun.clock.time,
        after.moon.clock.time <= before.moon.clock.time,
{
    lemma_hits_nonnegative(contacts, before.alarms@.len() as int);
}

/// Nothing is left of the player's clock when a tick ends in a loss, and
/// nothing of either grandfather's clock when it ends in a win.
pub proof fn lemma_outcome_follows_the_clocks(before: World, contacts: Seq<Contact>)
    ensures
        before.outcome_after(contacts) == Outcome::GameOver ==> before.player_time_after(contacts)
            <= 0,
        before.outcome_after(contacts) == Outcome::GameWin ==> before.sun_time_after(contacts) <= 0
            && before.moon_time_after(contacts) <= 0,
{
}

/// The world is as a new game finds it: the player and the grandfathers
/// at their places with full clocks, the reflector inactive, no alarm.
pub open spec fn is_fresh(world: World) -> bool {
    &&& world.player == new_player()
    &&& world.reflector.state == ReflectorState::InActive
    &&& world.sun == new_sun()
    &&& world.moon == new_moon()
    &&& world.alarms@.len() == 0
    &&& world.elapsed == 0
    &&& !world.cleanup_due
}

impl World {
    /// The world is usable: every speed fits a velocity, the grandfathers
    /// emit at points of the grid, and there are no more alarms than two
    /// for each emission that has fallen due.
    pub open spec fn wf(&self) -> bool {
        &&& self.player.wf()
        &&& self.sun.wf()
        &&& self.moon.wf()
        &&& all_wf(self.alarms@)
        &&& self.alarms@.len() <= 2 * (self.elapsed / EMIT_PERIOD)
    }

    /// The player's time once the contacts are resolved.
    pub open spec fn player_time_after(&self, contacts: Seq<Contact>) -> int {
        sat_sub(
            self.player.clock.time as int,
            PENALTY_MILLIS * player_hits(contacts, self.alarms@.len() as int),
        )
    }

    /// The Sun's time once the contacts are resolved.
    pub open spec fn sun_time_after(&self, contacts: Seq<Contact>) -> int {
        sat_sub(
            self.sun.clock.time as int,
            PENALTY_MILLIS * sun_hits(contacts, self.alarms@.len() as int),
        )
    }

    /// The Moon's time once the contacts are resolved.
    pub open spec fn moon_time_after(&self, contacts: Seq<Contact>) -> int {
        sat_sub(
            self.moon.clock.time as int,
            PENALTY_MILLIS * moon_hits(contacts, self.alarms@.len() as int),
        )
    }

    /// What the clocks call for once the contacts are resolved.
    pub open spec fn outcome_after(&self, contacts: Seq<Contact>) -> Outcome {
        outcome_of_times(
            self.player_time_after(contacts),
            self.sun_time_after(contacts),
            self.moon_time_after(contacts),
        )
    }

    /// The alarms once the contacts are resolved and, if one is due, the
    /// cleanup is made.
    pub open spec fn alarms_after(&self, contacts: Seq<Contact>) -> Seq<Alarm> {
        let left = survivors(self.alarms@, contacts, self.alarms@.len() as int);
        if self.cleanup_due {
            unreflected(left, left.len() as int)
        } else {
            left
        }
    }

    /// The world at the start of a game: one player with an inactive
    /// reflector, the two grandfathers, no alarm.
    pub fn new() -> (world: World)
        ensures
            world.wf(),
            is_fresh(world),
    {
        let pair = spawn_grandfather();
        World {
            player: spawn_player(),
            reflector: spawn_reflector().reflector,
            sun: pair.0,
            moon: pair.1,
            alarms: Vec::new(),
            elapsed: 0,
            cleanup_due: false,
        }
    }

    /// Checks that the world is usable.
    pub fn is_wf(&self) -> (ok: bool)
        ensures
            ok == self.wf(),
    {
        let limit: u32 = 0x7fff_ffff;
        let player_ok: bool = self.player.dash.duration > 0 && self.player.dash.speed <= limit
            && self.player.speed.0 <= limit;
        let sun_ok: bool = emits_on_grid(&self.sun);
        let moon_ok: bool = emits_on_grid(&self.moon);
        let count: usize = self.alarms.len();
        let few: bool = (count as u64) / 2 <= self.elapsed / EMIT_PERIOD && (count % 2 == 0
            || (count as u64) / 2 < self.elapsed / EMIT_PERIOD);
        let mut i: usize = 0;
        while i < count
            invariant
                i <= count,
                count == self.alarms@.len(),
                limit == i32::MAX,
                forall|j: int| 0 <= j < i ==> (#[trigger] self.alarms@[j]).wf(),
            decreases count - i,
        {
            if self.alarms[i].speed.0 > limit {
                assert(!self.alarms@[i as int].wf());
                return false;
            }
            i = i + 1;
        }
        player_ok && sun_ok && moon_ok && few
    }

    /// The first half of a tick of `dt` milliseconds, up to the physics
    /// step. Every clock ticks; the player's velocity and dash follow the
    /// input; the reflector follows its key; every alarm is steered at the
    /// player; then the emissions that fall due in this tick create their
    /// alarms, at rest, behind the others. Returns how many were created.
    pub fn begin_tick(&mut self, arena: &Arena, input: &Input, dt: u32) -> (spawned: usize)
        requires
            old(self).wf(),
            arena.wf(),
        ensures
            final(self).wf(),
            is_begun(*old(self), *final(self), *arena, *input, dt, spawned as int),
            final(self).player.clock.time <= old(self).player.clock.time,
            final(self).sun.clock.time <= old(self).sun.clock.time,
            final(self).moon.clock.time <= old(self).moon.clock.time,
    {
        let ghost before_alarms = self.alarms@;
        self.player.clock.tick(dt);
        self.sun.clock.tick(dt);
        self.moon.clock.tick(dt);
        move_player(arena, input, dt, &mut self.player);
        let mut toggles: Vec<ReflectorToggle> = Vec::new();
        toggles.push(toggle_reflector(input));
        update_reflector_state(&toggles, &mut self.reflector);
        let target = self.player.body.position;
        move_alarm(&mut self.alarms, target, arena.scale);
        let ghost steered = self.alarms@;
        let from: u64 = self.elapsed;
        let to: u64 = if from > u64::MAX - (dt as u64) {
            u64::MAX
        } else {
            from + dt as u64
        };
        self.elapsed = to;
        if to / CLEANUP_PERIOD > from / CLEANUP_PERIOD {
            self.cleanup_due = true;
        }
        let pulses: u64 = to / EMIT_PERIOD - from / EMIT_PERIOD;
        let events = crate::grandfather::spawn_alarm(&self.sun, &self.moon);
        let count: usize = self.alarms.len();
        emit_pulses(&events, pulses, &mut self.alarms);
        proof {
            assert(pulses * events@.len() <= 2 * pulses) by (nonlinear_arith)
                requires
                    events@.len() <= 2,
                    pulses >= 0,
            ;
            assert(self.alarms@.subrange(count as int, self.alarms@.len() as int) =~= pulse_alarms(
                events@,
                pulses as int,
            ));
            assert forall|i: int| 0 <= i < before_alarms.len() implies is_steered(
                before_alarms[i],
                #[trigger] self.alarms@[i],
                target,
                arena.scale as int,
            ) by {
                assert(self.alarms@[i] == steered[i]);
            }
        }
        self.alarms.len() - count
    }

    /// The second half of a tick, after the physics step. The contacts are
    /// resolved alarm by alarm; a cleanup that is due destroys the
    /// reflected alarms that are left; then the clocks give the outcome.
    pub fn end_tick(&mut self, contacts: &Vec<Contact>) -> (outcome: Outcome)
        requires
            old(self).wf(),
        ensures
            final(self).wf(),
            is_ended(*old(self), *final(self), contacts@),
            outcome == old(self).outcome_after(contacts@),
            final(self).alarms@.len() <= old(self).alarms@.len(),
            final(self).player.clock.time <= old(self).player.clock.time,
            final(self).sun.clock.time <= old(self).sun.clock.time,
            final(self).moon.clock.time <= old(self).moon.clock.time,
            outcome == Outcome::GameOver ==> final(self).player.clock.time <= 0,
            outcome == Outcome::GameWin ==> final(self).sun.clock.time <= 0,
            outcome == Outcome::GameWin ==> final(self).moon.clock.time <= 0,
    {
        handle_collisions(
            &mut self.alarms,
            contacts,
            &mut self.player.clock,
            &mut self.sun.clock,
            &mut self.moon.clock,
        );
        if self.cleanup_due {
            cleanup_alarms(&mut self.alarms);
            self.cleanup_due = false;
        }
        check_clocks(&self.player.clock, &self.sun.clock, &self.moon.clock)
    }
}

} // verus!
