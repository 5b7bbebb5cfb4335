//! Controller state and the per-cycle decision step of the control loop.
//!
//! The unverified driver owns the peripherals and the models. Each cycle it
//! samples the sensors, normalizes them here, runs both models, converts
//! each model's leading output to thousandths, and then hands both values to
//! `apply_inferences`, which atomically decides the watering pulse, performs
//! the shade transition, and advances the days-since-watered counter. The
//! driver then carries out the returned actions and sleeps for the
//! configured period.

use vstd::prelude::*;

use crate::decision::{decide_shading, decide_watering, shading_fires, watering_fires};
use crate::shade::{shade_command_spec, shade_next_spec, shade_transition, shade_wf, ShadeCommand,
    ShadeState};

verus! {

/// One cycle's increment of the days-since-watered counter, in
/// twenty-fourths of a day: the steady-state loop runs hourly.
pub const STEP_UNITS: u32 = 1;

/// Steady-state cycle period: one hour.
pub const CYCLE_PERIOD_MS: u32 = 60 * 60 * 1000;

/// Short cycle period for bench testing.
pub const DEBUG_CYCLE_PERIOD_MS: u32 = 100;

/// How long the relay is held active for one watering pulse.
pub const WATER_PULSE_MS: u32 = 500;

/// Explicit choice between the steady-state period and the bench period.
#[derive(Clone, Copy, Debug, PartialEq, Eq, Structural)]
pub struct CycleConfig {
    pub period_ms: u32,
}

impl CycleConfig {
    /// The deployed configuration: one cycle per hour.
    pub fn steady() -> (c: CycleConfig)
        ensures
            c.period_ms == CYCLE_PERIOD_MS,
    {
        CycleConfig { period_ms: CYCLE_PERIOD_MS }
    }

    /// The bench-test configuration: a much shorter cycle.
    pub fn bench() -> (c: CycleConfig)
        ensures
            c.period_ms == DEBUG_CYCLE_PERIOD_MS,
    {
        CycleConfig { period_ms: DEBUG_CYCLE_PERIOD_MS }
    }
}

impl Default for CycleConfig {
    fn default() -> (c: CycleConfig)
        ensures
            c.period_ms == CYCLE_PERIOD_MS,
    {
        CycleConfig { period_ms: CYCLE_PERIOD_MS }
    }
}

/// The counter value after one cycle: a watered cycle resets it to one
/// step, any other cycle grows it by one step (held at the top of the
/// counter's range, which an hourly loop never reaches).
pub open spec fn next_days_spec(days: u32, watered: bool) -> u32 {
    if watered {
        STEP_UNITS
    } else if days == u32::MAX {
        days
    } else {
        (days + STEP_UNITS) as u32
    }
}

/// All state the control loop carries across cycles: the shade position,
/// the days-since-watered counter and the time-in-sun counter, both in
/// twenty-fourths of a day.
#[derive(Clone, Copy, Debug, PartialEq, Eq, Structural)]
pub struct ControllerState {
    pub shade: ShadeState,
    pub days_since_watered: u32,
    pub time_in_sun: u32,
}

/// What the driver must do after one decision step: pulse the relay, and
/// how to command the servo.
#[derive(Clone, Copy, Debug, PartialEq, Eq, Structural)]
pub struct CycleActions {
    pub water_pulse: bool,
    pub shade_command: ShadeCommand,
}

impl ControllerState {
    /// The power-on state: shade open, both counters at zero.
    pub fn new() -> (s: ControllerState)
        ensures
            s.shade is Open,
            s.days_since_watered == 0,
            s.time_in_sun == 0,
    {
        ControllerState { shade: ShadeState::Open, days_since_watered: 0, time_in_sun: 0 }
    }

    /// One cycle's decision step, on both model outputs in thousandths.
    /// Watering is decided independently of the shade every cycle; the shade
    /// performs at most its one transition; the counter resets exactly on a
    /// watered cycle.
    pub fn apply_inferences(
        &mut self,
        water_milli: i64,
        shade_milli: i64,
        now_ms: u64,
    ) -> (a: CycleActions)
        requires
            shade_wf(old(self).shade, now_ms),
        ensures
            a.water_pulse == watering_fires(water_milli),
            a.shade_command == shade_command_spec(old(self).shade, shading_fires(shade_milli),
                now_ms),
            final(self).shade == shade_next_spec(old(self).shade, shading_fires(shade_milli),
                now_ms),
            final(self).days_since_watered == next_days_spec(old(self).days_since_watered,
                a.water_pulse),
            final(self).time_in_sun == old(self).time_in_sun,
            shade_wf(final(self).shade, now_ms),
    {
        let water_fire = decide_watering(water_milli);
        let shade_fire = decide_shading(shade_milli);
        let (next_shade, command) = shade_transition(self.shade, shade_fire, now_ms);
        self.shade = next_shade;
        self.days_since_watered = if water_fire {
            STEP_UNITS
        } else if self.days_since_watered == u32::MAX {
            self.days_since_watered
        } else {
            self.days_since_watered + STEP_UNITS
        };
        CycleActions { water_pulse: water_fire, shade_command: command }
    }
}

/// The days-since-watered counter resets to exactly one step on a watered
/// cycle, otherwise grows strictly by exactly one step, and is never
/// negative. The one value exempt from strict growth is the top of the
/// counter's range, where the counter holds.
pub proof fn lemma_watering_streak(days: u32, watered: bool)
    requires
        days < u32::MAX,
    ensures
        watered ==> next_days_spec(days, watered) == STEP_UNITS,
        !watered ==> next_days_spec(days, watered) == days + STEP_UNITS,
        !watered ==> next_days_spec(days, watered) > days,
        next_days_spec(days, watered) >= 0,
{
}

} // verus!
