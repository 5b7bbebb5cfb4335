use plant_care::controller::{
    ControllerState, CycleConfig, CYCLE_PERIOD_MS, DEBUG_CYCLE_PERIOD_MS, STEP_UNITS,
    WATER_PULSE_MS,
};
use plant_care::fault::{fault_is_critical, recovery_action, Fault, FaultAction};
use plant_care::shade::{ShadeCommand, ShadeState, SHADE_DWELL_MS};

/// Converts a mock model's unit-interval output to thousandths, as the
/// driver does at the inference boundary.
fn to_milli(output: f32) -> i64 {
    (output * 1000.0).round() as i64
}

#[test]
fn initial_state_is_open_with_zero_counters() {
    let s = ControllerState::new();
    assert_eq!(s.shade, ShadeState::Open);
    assert_eq!(s.days_since_watered, 0);
    assert_eq!(s.time_in_sun, 0);
}

#[test]
fn eager_waterer_waters_every_cycle_and_never_shades() {
    // Mock models: watering always 0.95, shading always 0.3.
    let mut s = ControllerState::new();
    let mut now: u64 = 0;
    for _cycle in 0..48 {
        let actions = s.apply_inferences(to_milli(0.95), to_milli(0.3), now);
        assert!(actions.water_pulse);
        assert_eq!(actions.shade_command, ShadeCommand::Stay);
        assert_eq!(s.shade, ShadeState::Open);
        assert_eq!(s.days_since_watered, STEP_UNITS);
        now += CYCLE_PERIOD_MS as u64;
    }
}

#[test]
fn shade_closes_once_and_reopens_exactly_at_the_dwell() {
    // Mock shading model: 0.8 for exactly one cycle, 0.0 thereafter; the
    // watering model stays quiet. Simulated time advances one millisecond
    // per evaluation so the reopening instant is hit exactly.
    let mut s = ControllerState::new();
    let close_at: u64 = 5000;

    let actions = s.apply_inferences(to_milli(0.0), to_milli(0.8), close_at);
    assert_eq!(actions.shade_command, ShadeCommand::Close);
    assert_eq!(s.shade, ShadeState::Closed { since_ms: close_at });

    let mut now = close_at;
    loop {
        now += 1;
        let actions = s.apply_inferences(to_milli(0.0), to_milli(0.0), now);
        if now - close_at < SHADE_DWELL_MS {
            assert_eq!(actions.shade_command, ShadeCommand::Stay);
            assert_eq!(s.shade, ShadeState::Closed { since_ms: close_at });
        } else {
            assert_eq!(actions.shade_command, ShadeCommand::Reopen);
            assert_eq!(s.shade, ShadeState::Open);
            assert_eq!(now - close_at, SHADE_DWELL_MS);
            break;
        }
    }

    // With the mock model quiet, the shade stays open afterwards.
    let actions = s.apply_inferences(to_milli(0.0), to_milli(0.0), now + 1);
    assert_eq!(actions.shade_command, ShadeCommand::Stay);
    assert_eq!(s.shade, ShadeState::Open);
}

#[test]
fn days_counter_grows_by_one_step_and_resets_on_watering() {
    let mut s = ControllerState::new();
    let quiet = to_milli(0.0);
    let eager = to_milli(0.95);

    let a = s.apply_inferences(quiet, quiet, 0);
    assert!(!a.water_pulse);
    assert_eq!(s.days_since_watered, STEP_UNITS);

    let a = s.apply_inferences(quiet, quiet, 1);
    assert!(!a.water_pulse);
    assert_eq!(s.days_since_watered, 2 * STEP_UNITS);

    let a = s.apply_inferences(quiet, quiet, 2);
    assert!(!a.water_pulse);
    assert_eq!(s.days_since_watered, 3 * STEP_UNITS);

    let a = s.apply_inferences(eager, quiet, 3);
    assert!(a.water_pulse);
    assert_eq!(s.days_since_watered, STEP_UNITS);

    let a = s.apply_inferences(quiet, quiet, 4);
    assert!(!a.water_pulse);
    assert_eq!(s.days_since_watered, 2 * STEP_UNITS);
}

#[test]
fn watering_is_independent_of_the_shade_state() {
    let mut s = ControllerState::new();
    let actions = s.apply_inferences(to_milli(0.95), to_milli(0.8), 100);
    assert!(actions.water_pulse);
    assert_eq!(actions.shade_command, ShadeCommand::Close);
    let actions = s.apply_inferences(to_milli(0.95), to_milli(0.0), 101);
    assert!(actions.water_pulse);
    assert_eq!(actions.shade_command, ShadeCommand::Stay);
}

#[test]
fn cycle_config_periods() {
    assert_eq!(CycleConfig::default().period_ms, CYCLE_PERIOD_MS);
    assert_eq!(CycleConfig::steady().period_ms, 60 * 60 * 1000);
    assert_eq!(CycleConfig::bench().period_ms, DEBUG_CYCLE_PERIOD_MS);
    assert_eq!(WATER_PULSE_MS, 500);
}

#[test]
fn faults_halt_at_startup_and_skip_in_the_loop() {
    for fault in [Fault::Sensor, Fault::Actuator, Fault::Model] {
        assert_eq!(recovery_action(fault, true), FaultAction::Halt);
        assert_eq!(recovery_action(fault, false), FaultAction::SkipCycle);
    }
    assert!(fault_is_critical(Fault::Actuator));
    assert!(!fault_is_critical(Fault::Sensor));
    assert!(!fault_is_critical(Fault::Model));
}
