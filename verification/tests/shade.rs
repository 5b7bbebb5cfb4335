use plant_care::shade::{shade_transition, ShadeCommand, ShadeState, SHADE_DWELL_MS};

#[test]
fn open_shade_closes_when_the_decision_fires() {
    let (next, command) = shade_transition(ShadeState::Open, true, 12345);
    assert_eq!(next, ShadeState::Closed { since_ms: 12345 });
    assert_eq!(command, ShadeCommand::Close);
}

#[test]
fn open_shade_stays_without_a_firing_decision() {
    let (next, command) = shade_transition(ShadeState::Open, false, 12345);
    assert_eq!(next, ShadeState::Open);
    assert_eq!(command, ShadeCommand::Stay);
}

#[test]
fn closed_shade_holds_before_the_dwell_elapses() {
    let closed = ShadeState::Closed { since_ms: 1000 };
    for now in [1000, 1001, 1000 + SHADE_DWELL_MS / 2, 1000 + SHADE_DWELL_MS - 1] {
        let (next, command) = shade_transition(closed, true, now);
        assert_eq!(next, closed);
        assert_eq!(command, ShadeCommand::Stay);
    }
}

#[test]
fn closed_shade_reopens_exactly_at_the_dwell() {
    let closed = ShadeState::Closed { since_ms: 1000 };
    let (next, command) = shade_transition(closed, false, 1000 + SHADE_DWELL_MS);
    assert_eq!(next, ShadeState::Open);
    assert_eq!(command, ShadeCommand::Reopen);
}

#[test]
fn reopening_ignores_the_shading_decision() {
    let closed = ShadeState::Closed { since_ms: 0 };
    let (with_fire, _) = shade_transition(closed, true, SHADE_DWELL_MS);
    let (without_fire, _) = shade_transition(closed, false, SHADE_DWELL_MS);
    assert_eq!(with_fire, ShadeState::Open);
    assert_eq!(without_fire, ShadeState::Open);
}

#[test]
fn a_closing_cycle_does_not_also_reopen() {
    // The cycle that closes the shade ends with the shade closed, even
    // though the same clock value is the start of the dwell.
    let (next, command) = shade_transition(ShadeState::Open, true, 777);
    assert_eq!(command, ShadeCommand::Close);
    assert_eq!(next, ShadeState::Closed { since_ms: 777 });
    let (after, second_command) = shade_transition(next, true, 777);
    assert_eq!(after, next);
    assert_eq!(second_command, ShadeCommand::Stay);
}
