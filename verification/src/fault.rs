//! Fault taxonomy and the per-phase recovery policy.
//!
//! Faults during initialization are fatal: the device refuses to start
//! rather than enter the loop with broken peripherals or a malformed model.
//! Faults in the steady-state loop skip to the next cycle, because an
//! unattended device must keep trying. Actuator faults are the
//! safety-critical class (a stuck relay or servo) and deserve the loudest
//! logging even while the loop continues.

use vstd::prelude::*;

verus! {

/// Everything that can go wrong around one cycle.
#[derive(Clone, Copy, Debug, PartialEq, Eq, Structural)]
pub enum Fault {
    /// An analog read could not complete a conversion.
    Sensor,
    /// A relay or servo command failed.
    Actuator,
    /// A malformed or missing serialized model.
    Model,
}

/// What the driver does about a fault.
#[derive(Clone, Copy, Debug, PartialEq, Eq, Structural)]
pub enum FaultAction {
    /// Refuse to start, or stop: only during initialization.
    Halt,
    /// Abandon the current cycle and retry on the next period.
    SkipCycle,
}

/// The recovery policy: halt exactly when the fault struck during
/// initialization, skip the cycle in the steady-state loop.
pub fn recovery_action(fault: Fault, during_startup: bool) -> (a: FaultAction)
    ensures
        a is Halt <==> during_startup,
        a is SkipCycle <==> !during_startup,
{
    if during_startup {
        FaultAction::Halt
    } else {
        FaultAction::SkipCycle
    }
}

/// Actuator faults are the safety-critical class and must be surfaced
/// loudly even when the loop continues.
pub fn fault_is_critical(fault: Fault) -> (critical: bool)
    ensures
        critical == (fault is Actuator),
{
    match fault {
        Fault::Actuator => true,
        Fault::Sensor => false,
        Fault::Model => false,
    }
}

} // verus!
