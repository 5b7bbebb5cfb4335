//! Servo duty mapping and the stepped sweep that moves the shade.
//!
//! The servo does not jump to a target position: a shade movement is a
//! monotonic sweep across the angular range in fixed steps, each step one
//! duty command followed by a short pause, to avoid mechanical shock.
//! Closing sweeps the angles upward, reopening sweeps them downward.

use vstd::arithmetic::div_mod::lemma_div_is_ordered;
use vstd::arithmetic::mul::lemma_mul_inequality;
use vstd::prelude::*;

verus! {

/// Linear interpolation from an input range onto an output range, in
/// truncating integer arithmetic. Inputs beyond `in_max` extrapolate past
/// `out_max`; the caller must keep `in_min < in_max`.
pub open spec fn map_spec(x: int, in_min: int, in_max: int, out_min: int, out_max: int) -> int {
    (x - in_min) * (out_max - out_min) / (in_max - in_min) + out_min
}

/// Maps `x` from the range `in_min..in_max` onto `out_min..out_max`,
/// as the servo driver expects for angle-to-duty conversion.
pub fn map(x: u32, in_min: u32, in_max: u32, out_min: u32, out_max: u32) -> (duty: u32)
    requires
        in_min <= x,
        in_min < in_max,
        out_min <= out_max,
        (x - in_min) * (out_max - out_min) <= u32::MAX,
        (x - in_min) * (out_max - out_min) / (in_max - in_min) + out_min <= u32::MAX,
    ensures
        duty == map_spec(x as int, in_min as int, in_max as int, out_min as int, out_max as int),
{
    (x - in_min) * (out_max - out_min) / (in_max - in_min) + out_min
}

/// First angle of a shade sweep.
pub const SWEEP_START_ANGLE: u32 = 30;

/// Last angle of a shade sweep.
pub const SWEEP_END_ANGLE: u32 = 200;

/// Angular distance between consecutive duty commands of a sweep.
pub const SWEEP_STEP_ANGLE: u32 = 2;

/// Number of duty commands in one full sweep: the angles 30, 32, ..., 200
/// inclusive.
pub const SWEEP_COUNT: usize = 86;

/// Input range of the angle-to-duty mapping.
pub const ANGLE_IN_MIN: u32 = 0;

/// Upper end of the mapping's input range; sweep angles beyond it
/// extrapolate past the upper duty limit, as the hardware calibration
/// intends.
pub const ANGLE_IN_MAX: u32 = 180;

/// Pause between consecutive sweep steps, applied by the driver.
pub const SWEEP_STEP_DELAY_MS: u32 = 25;

/// The angle of the sweep's `i`-th duty command: ascending from the start
/// angle when closing, descending from the end angle when reopening.
pub open spec fn sweep_angle(closing: bool, i: int) -> int {
    if closing {
        SWEEP_START_ANGLE + SWEEP_STEP_ANGLE * i
    } else {
        SWEEP_END_ANGLE - SWEEP_STEP_ANGLE * i
    }
}

/// The full ordered list of duty commands for one shade movement, each the
/// mapping of its sweep angle onto the servo's duty limits. The driver
/// issues them in order, pausing `SWEEP_STEP_DELAY_MS` after each.
pub fn sweep_duties(closing: bool, min_limit: u32, max_limit: u32) -> (duties: Vec<u32>)
    requires
        min_limit <= max_limit,
        SWEEP_END_ANGLE * (max_limit - min_limit) <= u32::MAX,
        SWEEP_END_ANGLE * (max_limit - min_limit) / (ANGLE_IN_MAX as int) + min_limit
            <= u32::MAX,
    ensures
        duties@.len() == SWEEP_COUNT,
        forall|i: int|
            0 <= i < SWEEP_COUNT ==> duties@[i] == map_spec(
                sweep_angle(closing, i),
                ANGLE_IN_MIN as int,
                ANGLE_IN_MAX as int,
                min_limit as int,
                max_limit as int,
            ),
{
    let mut duties: Vec<u32> = Vec::new();
    let mut k: usize = 0;
    while k < SWEEP_COUNT
        invariant
            k <= SWEEP_COUNT,
            duties@.len() == k,
            min_limit <= max_limit,
            SWEEP_END_ANGLE * (max_limit - min_limit) <= u32::MAX,
            SWEEP_END_ANGLE * (max_limit - min_limit) / (ANGLE_IN_MAX as int) + min_limit
                <= u32::MAX,
            forall|i: int|
                0 <= i < k ==> duties@[i] == map_spec(
                    sweep_angle(closing, i),
                    ANGLE_IN_MIN as int,
                    ANGLE_IN_MAX as int,
                    min_limit as int,
                    max_limit as int,
                ),
        decreases SWEEP_COUNT - k,
    {
        let angle: u32 = if closing {
            SWEEP_START_ANGLE + SWEEP_STEP_ANGLE * (k as u32)
        } else {
            SWEEP_END_ANGLE - SWEEP_STEP_ANGLE * (k as u32)
        };
        proof {
            let span = (max_limit - min_limit) as int;
            lemma_mul_inequality(angle as int, SWEEP_END_ANGLE as int, span);
            lemma_div_is_ordered(
                (angle as int) * span,
                (SWEEP_END_ANGLE as int) * span,
                ANGLE_IN_MAX as int,
            );
        }
        let duty = map(angle, ANGLE_IN_MIN, ANGLE_IN_MAX, min_limit, max_limit);
        duties.push(duty);
        k = k + 1;
    }
    duties
}

/// A closing sweep issues its angles in strictly increasing order; a
/// reopening sweep issues the same angles in strictly decreasing order.
pub proof fn lemma_sweep_angle_order(closing: bool, i: int, j: int)
    requires
        0 <= i < j < SWEEP_COUNT,
    ensures
        closing ==> sweep_angle(closing, i) < sweep_angle(closing, j),
        !closing ==> sweep_angle(closing, i) > sweep_angle(closing, j),
{
}

/// A sweep's angles are exactly the even-offset angles of the range: every
/// command angle lies between the start and end angles at an even offset
/// from the start, and the sweep begins and ends at the range's ends.
pub proof fn lemma_sweep_angle_range(closing: bool, i: int)
    requires
        0 <= i < SWEEP_COUNT,
    ensures
        SWEEP_START_ANGLE <= sweep_angle(closing, i) <= SWEEP_END_ANGLE,
        (sweep_angle(closing, i) - SWEEP_START_ANGLE) % (SWEEP_STEP_ANGLE as int) == 0,
        sweep_angle(true, 0) == SWEEP_START_ANGLE,
        sweep_angle(true, SWEEP_COUNT - 1) == SWEEP_END_ANGLE,
        sweep_angle(false, 0) == SWEEP_END_ANGLE,
        sweep_angle(false, SWEEP_COUNT - 1) == SWEEP_START_ANGLE,
{
}

} // verus!
