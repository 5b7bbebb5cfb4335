//! Decision engine: feature-vector assembly and the fixed actuation
//! thresholds applied to a model's output.
//!
//! The inference models themselves are external collaborators: the driver
//! hands a feature vector to a model's predict operation and converts the
//! first element of the returned vector to thousandths before the verified
//! threshold comparison. Both evaluations are pure; nothing here mutates
//! controller state.

use vstd::prelude::*;

use crate::normalize::NormalizedFeatures;
use crate::ratio::Ratio;

verus! {

/// Watering fires when the model output, in thousandths, reaches nine
/// tenths. The threshold is deliberately high to bias toward conservative
/// watering.
pub const WATER_THRESHOLD_MILLI: i64 = 900;

/// Shading fires when the model output, in thousandths, exceeds seven
/// tenths.
pub const SHADE_THRESHOLD_MILLI: i64 = 700;

/// Denominator of the days-since-watered feature: the counter holds
/// twenty-fourths of a day, and the feature is that count of days divided
/// by ten.
pub const DAYS_FEATURE_DEN: u32 = 240;

/// Denominator of the time-in-sun feature: twenty-fourths of a day.
pub const TIME_IN_SUN_DEN: u32 = 24;

/// A malformed model: its output vector carries no leading element to
/// consult.
#[derive(Clone, Copy, Debug, PartialEq, Eq, Structural)]
pub enum ModelError {
    Invalid,
}

/// The single element of a model's output vector that the decisions
/// consult, or `ModelError::Invalid` when the vector is empty.
pub fn first_output(outputs: &Vec<i64>) -> (r: Result<i64, ModelError>)
    ensures
        outputs@.len() > 0 ==> r == Ok::<i64, ModelError>(outputs@[0]),
        outputs@.len() == 0 ==> r == Err::<i64, ModelError>(ModelError::Invalid),
{
    if outputs.len() > 0 {
        Ok(outputs[0])
    } else {
        Err(ModelError::Invalid)
    }
}

/// The watering decision on a model output given in thousandths.
pub open spec fn watering_fires(inference_milli: i64) -> bool {
    inference_milli >= WATER_THRESHOLD_MILLI
}

/// The shading decision on a model output given in thousandths.
pub open spec fn shading_fires(inference_milli: i64) -> bool {
    inference_milli > SHADE_THRESHOLD_MILLI
}

/// Applies the watering threshold to a model output.
pub fn decide_watering(inference_milli: i64) -> (fire: bool)
    ensures
        fire == watering_fires(inference_milli),
{
    inference_milli >= WATER_THRESHOLD_MILLI
}

/// Applies the shading threshold to a model output.
pub fn decide_shading(inference_milli: i64) -> (fire: bool)
    ensures
        fire == shading_fires(inference_milli),
{
    inference_milli > SHADE_THRESHOLD_MILLI
}

/// The ordered feature vector of the watering model:
/// sunlight fraction, wetness, days since watered divided by ten.
pub fn watering_features(f: &NormalizedFeatures, days_since_watered: u32) -> (v: Vec<Ratio>)
    ensures
        v@.len() == 3,
        v@[0] == f.sunlight,
        v@[1] == f.wetness,
        v@[2].num == days_since_watered as int,
        v@[2].den == DAYS_FEATURE_DEN,
{
    let mut v: Vec<Ratio> = Vec::new();
    v.push(f.sunlight);
    v.push(f.wetness);
    v.push(Ratio::new(days_since_watered as i64, DAYS_FEATURE_DEN));
    v
}

/// The ordered feature vector of the shading model:
/// sunlight fraction, wetness, time in sun.
pub fn shading_features(f: &NormalizedFeatures, time_in_sun: u32) -> (v: Vec<Ratio>)
    ensures
        v@.len() == 3,
        v@[0] == f.sunlight,
        v@[1] == f.wetness,
        v@[2].num == time_in_sun as int,
        v@[2].den == TIME_IN_SUN_DEN,
{
    let mut v: Vec<Ratio> = Vec::new();
    v.push(f.sunlight);
    v.push(f.wetness);
    v.push(Ratio::new(time_in_sun as i64, TIME_IN_SUN_DEN));
    v
}

} // verus!
