//! Sensor normalization: raw analog counts to bounded physical quantities.
//!
//! The water channel is calibrated so that `dryness = water_adc / 3500` and
//! `wetness = (1 - dryness) / (3/5) - 1/4`. Over a common denominator this
//! is exactly `(4 * (3500 - water_adc) - 2100) / 8400`, which is what
//! `normalize` computes. The light channel is `1 - light_adc / 3038`, exactly
//! `(3038 - light_adc) / 3038`. Raw counts outside the calibrated range give
//! values outside the unit interval; they are passed through unclamped and
//! downstream consumers decide how to treat them.

use vstd::prelude::*;

use crate::ratio::{lemma_ratio_lt_same_den, ratio_lt, Ratio};

verus! {

/// Highest count a 12-bit analog-to-digital converter can report.
pub const ADC_COUNT_MAX: u16 = 4095;

/// Calibrated full-scale count of the soil-moisture channel.
pub const WATER_ADC_MAX: u16 = 3500;

/// Calibrated full-scale count of the light channel.
pub const LIGHT_ADC_MAX: u16 = 3038;

/// Fixed denominator of the wetness ratio: 8400 = 4 * (3 / 5) * 3500.
pub const WETNESS_DEN: u32 = 8400;

/// Fixed denominator of the sunlight ratio, equal to the light channel's
/// calibrated full scale.
pub const SUNLIGHT_DEN: u32 = 3038;

/// One raw reading of both analog channels, taken once per cycle.
#[derive(Clone, Copy, Debug, PartialEq, Eq, Structural)]
pub struct RawSample {
    pub water_adc: u16,
    pub light_adc: u16,
}

impl RawSample {
    /// Counts the converter can actually produce.
    pub open spec fn wf(self) -> bool {
        self.water_adc <= ADC_COUNT_MAX && self.light_adc <= ADC_COUNT_MAX
    }
}

/// Both normalized quantities of one cycle, exact and unclamped.
#[derive(Clone, Copy, Debug, PartialEq, Eq, Structural)]
pub struct NormalizedFeatures {
    pub wetness: Ratio,
    pub sunlight: Ratio,
}

impl NormalizedFeatures {
    pub open spec fn wf(self) -> bool {
        self.wetness.den == WETNESS_DEN && self.sunlight.den == SUNLIGHT_DEN
    }
}

/// Numerator of the wetness ratio over `WETNESS_DEN`.
pub open spec fn wetness_num(water_adc: int) -> int {
    4 * (WATER_ADC_MAX - water_adc) - 2100
}

/// Numerator of the sunlight ratio over `SUNLIGHT_DEN`.
pub open spec fn sunlight_num(light_adc: int) -> int {
    LIGHT_ADC_MAX - light_adc
}

/// Converts one raw sample into its exact normalized quantities.
pub fn normalize(raw: &RawSample) -> (f: NormalizedFeatures)
    ensures
        f.wetness.num == wetness_num(raw.water_adc as int),
        f.wetness.den == WETNESS_DEN,
        f.sunlight.num == sunlight_num(raw.light_adc as int),
        f.sunlight.den == SUNLIGHT_DEN,
        f.wf(),
{
    let wet_num: i64 = 4 * (WATER_ADC_MAX as i64 - raw.water_adc as i64) - 2100;
    let sun_num: i64 = LIGHT_ADC_MAX as i64 - raw.light_adc as i64;
    NormalizedFeatures {
        wetness: Ratio::new(wet_num, WETNESS_DEN),
        sunlight: Ratio::new(sun_num, SUNLIGHT_DEN),
    }
}

/// Normalization is a pure function of the raw sample: two samples with the
/// same counts normalize to the same quantities.
pub proof fn lemma_normalize_deterministic(a: RawSample, b: RawSample)
    requires
        a.water_adc == b.water_adc,
        a.light_adc == b.light_adc,
    ensures
        wetness_num(a.water_adc as int) == wetness_num(b.water_adc as int),
        sunlight_num(a.light_adc as int) == sunlight_num(b.light_adc as int),
{
}

/// Wetness is strictly antitone in the raw water count: drier soil reads a
/// higher count, so a lower count always yields a strictly higher wetness.
/// The denominator is fixed and positive, so ordering of numerators is
/// ordering of values.
pub proof fn lemma_wetness_monotone(w1: int, w2: int)
    requires
        w1 < w2,
    ensures
        wetness_num(w1) > wetness_num(w2),
{
}

/// The same monotonicity on the wetness ratios themselves, as `normalize`
/// produces them: the wetness of the higher count is strictly the smaller
/// rational value.
pub proof fn lemma_wetness_value_monotone(a: Ratio, b: Ratio, w1: int, w2: int)
    requires
        w1 < w2,
        a.num == wetness_num(w1),
        a.den == WETNESS_DEN,
        b.num == wetness_num(w2),
        b.den == WETNESS_DEN,
    ensures
        ratio_lt(b, a),
{
    lemma_ratio_lt_same_den(b, a);
}

} // verus!
