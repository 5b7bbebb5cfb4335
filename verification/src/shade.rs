//! The shade state machine and its timed hysteresis.
//!
//! The shade is either open or closed; a closed shade remembers the
//! millisecond timestamp of the cycle that closed it. Each cycle performs at
//! most one transition, evaluated in a fixed order: an open shade closes when
//! the shading decision fires; otherwise a closed shade reopens once the
//! dwell time has elapsed since closure; otherwise nothing moves.

use vstd::prelude::*;

verus! {

/// Milliseconds the shade must remain closed before it may reopen.
pub const SHADE_DWELL_MS: u64 = 300000;

/// The shade position, with the closure timestamp while closed.
#[derive(Clone, Copy, Debug, PartialEq, Eq, Structural)]
pub enum ShadeState {
    Open,
    Closed { since_ms: u64 },
}

/// What the cycle tells the servo to do: hold position, sweep to the shaded
/// position, or sweep back to the open position.
#[derive(Clone, Copy, Debug, PartialEq, Eq, Structural)]
pub enum ShadeCommand {
    Stay,
    Close,
    Reopen,
}

/// A recorded closure timestamp never lies in the future of the cycle's
/// clock.
pub open spec fn shade_wf(s: ShadeState, now_ms: u64) -> bool {
    s matches ShadeState::Closed { since_ms } ==> since_ms <= now_ms
}

/// The state after one cycle's evaluation.
pub open spec fn shade_next_spec(s: ShadeState, fires: bool, now_ms: u64) -> ShadeState {
    match s {
        ShadeState::Open => if fires {
            ShadeState::Closed { since_ms: now_ms }
        } else {
            ShadeState::Open
        },
        ShadeState::Closed { since_ms } => if now_ms >= since_ms + SHADE_DWELL_MS {
            ShadeState::Open
        } else {
            s
        },
    }
}

/// The servo command issued by one cycle's evaluation.
pub open spec fn shade_command_spec(s: ShadeState, fires: bool, now_ms: u64) -> ShadeCommand {
    match s {
        ShadeState::Open => if fires {
            ShadeCommand::Close
        } else {
            ShadeCommand::Stay
        },
        ShadeState::Closed { since_ms } => if now_ms >= since_ms + SHADE_DWELL_MS {
            ShadeCommand::Reopen
        } else {
            ShadeCommand::Stay
        },
    }
}

/// Evaluates the shade transition for one cycle, returning the next state
/// and the command for the servo.
pub fn shade_transition(s: ShadeState, fires: bool, now_ms: u64) -> (r: (ShadeState, ShadeCommand))
    requires
        shade_wf(s, now_ms),
    ensures
        r.0 == shade_next_spec(s, fires, now_ms),
        r.1 == shade_command_spec(s, fires, now_ms),
        shade_wf(r.0, now_ms),
{
    match s {
        ShadeState::Open => {
            if fires {
                (ShadeState::Closed { since_ms: now_ms }, ShadeCommand::Close)
            } else {
                (ShadeState::Open, ShadeCommand::Stay)
            }
        },
        ShadeState::Closed { since_ms } => {
            if now_ms - since_ms >= SHADE_DWELL_MS {
                (ShadeState::Open, ShadeCommand::Reopen)
            } else {
                (ShadeState::Closed { since_ms }, ShadeCommand::Stay)
            }
        },
    }
}

/// A well-formed shade state stays well-formed as the clock advances, so
/// the driver may carry one cycle's state to the next cycle's later clock.
pub proof fn lemma_shade_wf_clock_advances(s: ShadeState, t1: u64, t2: u64)
    requires
        shade_wf(s, t1),
        t1 <= t2,
    ensures
        shade_wf(s, t2),
{
}

/// Timed hysteresis: a closed shade reopens only once the dwell time has
/// elapsed since the cycle that closed it, and reopening is owed as soon as
/// it has, whatever the shading decision says.
pub proof fn lemma_shade_dwell(s: ShadeState, fires: bool, now_ms: u64)
    requires
        shade_wf(s, now_ms),
        s is Closed,
    ensures
        shade_next_spec(s, fires, now_ms) is Open ==> now_ms - s->since_ms >= SHADE_DWELL_MS,
        now_ms - s->since_ms >= SHADE_DWELL_MS ==> shade_next_spec(s, fires, now_ms) is Open,
{
}

/// One cycle performs at most one transition: every state change is a single
/// edge with its single command, a command is issued exactly when the state
/// changes, and in particular a cycle never closes and reopens the shade in
/// one evaluation.
pub proof fn lemma_shade_single_transition(s: ShadeState, fires: bool, now_ms: u64)
    requires
        shade_wf(s, now_ms),
    ensures
        ({
            let next = shade_next_spec(s, fires, now_ms);
            let cmd = shade_command_spec(s, fires, now_ms);
            &&& (cmd is Stay <==> next == s)
            &&& (cmd is Close ==> s is Open && next == ShadeState::Closed { since_ms: now_ms })
            &&& (cmd is Reopen ==> s is Closed && next is Open)
            &&& (s is Open && next is Open ==> cmd is Stay)
            &&& (s is Closed && next is Closed ==> cmd is Stay)
        }),
{
}

} // verus!
