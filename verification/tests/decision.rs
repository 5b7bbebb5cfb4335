use plant_care::decision::{
    decide_shading, decide_watering, first_output, shading_features, watering_features,
    ModelError, DAYS_FEATURE_DEN, SHADE_THRESHOLD_MILLI, TIME_IN_SUN_DEN, WATER_THRESHOLD_MILLI,
};
use plant_care::normalize::{normalize, RawSample};

#[test]
fn watering_threshold_is_inclusive_at_nine_tenths() {
    assert!(decide_watering(WATER_THRESHOLD_MILLI));
    assert!(decide_watering(950));
    assert!(decide_watering(1000));
    assert!(!decide_watering(WATER_THRESHOLD_MILLI - 1));
    assert!(!decide_watering(0));
    assert!(!decide_watering(-100));
}

#[test]
fn shading_threshold_is_strict_at_seven_tenths() {
    assert!(!decide_shading(SHADE_THRESHOLD_MILLI));
    assert!(decide_shading(SHADE_THRESHOLD_MILLI + 1));
    assert!(decide_shading(800));
    assert!(!decide_shading(300));
    assert!(!decide_shading(0));
}

#[test]
fn first_output_takes_the_leading_element() {
    assert_eq!(first_output(&vec![950, 17, -3]), Ok(950));
    assert_eq!(first_output(&vec![0]), Ok(0));
}

#[test]
fn first_output_rejects_an_empty_output_vector() {
    assert_eq!(first_output(&Vec::new()), Err(ModelError::Invalid));
}

#[test]
fn watering_feature_vector_order_and_scaling() {
    let f = normalize(&RawSample { water_adc: 1000, light_adc: 2000 });
    // 24 twenty-fourths of a day is one day; the feature is a tenth of that.
    let v = watering_features(&f, 24);
    assert_eq!(v.len(), 3);
    assert_eq!(v[0], f.sunlight);
    assert_eq!(v[1], f.wetness);
    assert_eq!(v[2].num, 24);
    assert_eq!(v[2].den, DAYS_FEATURE_DEN);
    let days_over_ten = v[2].num as f64 / v[2].den as f64;
    assert!((days_over_ten - 0.1).abs() < 1e-12);
}

#[test]
fn shading_feature_vector_order_and_scaling() {
    let f = normalize(&RawSample { water_adc: 1000, light_adc: 2000 });
    let v = shading_features(&f, 48);
    assert_eq!(v.len(), 3);
    assert_eq!(v[0], f.sunlight);
    assert_eq!(v[1], f.wetness);
    assert_eq!(v[2].num, 48);
    assert_eq!(v[2].den, TIME_IN_SUN_DEN);
    let in_days = v[2].num as f64 / v[2].den as f64;
    assert!((in_days - 2.0).abs() < 1e-12);
}
