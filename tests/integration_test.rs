use ring360::{Ring360, ToRing360};

#[test]
fn test_operations() {
    let v1: i64 = 271_893_635;
    let v2: i64 = 134_635_893;
    let expected_result = (v1 + v2) % Ring360::BASE;
    let d1 = Ring360(v1);
    let d2 = Ring360(v2);
    let d3 = d1 + d2;
    assert_eq!(d3.to_f64(), expected_result);

    let d4 = d2 - d1;
    let expected_result = (Ring360::BASE + (v2 - v1)) % Ring360::BASE;
    assert_eq!(d4.to_f64(), expected_result);
}

#[test]
fn test_multiply() {
    let v2: i64 = 134_635_893;
    let d2 = Ring360(v2);
    let m1: i64 = 4;
    let d5 = d2.multiply(m1);
    let expected_result = (v2 * m1) % Ring360::BASE;
    assert_eq!(d5.to_f64(), expected_result);

    let d6 = d2.divide(m1);
    let expected_result = (v2 / m1) % Ring360::BASE;
    assert_eq!(d6.to_f64(), expected_result);

    let m2: i64 = 5;
    let d7 = d2.multiply(m2);
    let expected_result = (v2 * m2) % Ring360::BASE;
    assert_eq!(d7.to_f64(), expected_result);
}

#[test]
fn test_conversion() {
    let v1: i64 = 271_893_635;
    let v2: i64 = 134_635_893;
    let v3: i64 = 99_056_000;
    let new_degree = (v1 + v2 + v3).mod_360();
    let expected_result = (v1 + v2 + v3) % Ring360::BASE;
    let sum_as_ring_360 = (v1 + v2 + v3).to_360();
    let expected_rotations = (v1 + v2 + v3).div_euclid(Ring360::BASE);
    assert_eq!(new_degree, expected_result);
    assert_eq!(sum_as_ring_360.as_tuple(), (expected_result, expected_rotations));
}

#[test]
fn test_angles() {
    let v1: i64 = 271_893_635;
    let v2: i64 = 24_635_893;

    let d1 = v1.to_360();
    let d2 = v2.to_360();

    let expected_angle_d1_to_d2 = (v2 + Ring360::BASE - v1) % Ring360::BASE;

    assert_eq!(d1.angle(d2), expected_angle_d1_to_d2);
    assert_eq!(d1.angle_f64(v2), expected_angle_d1_to_d2);
    // the reverse direction is negative
    let expected_angle_d2_to_d1 = 0 - expected_angle_d1_to_d2;
    assert_eq!(d2.angle(d1), expected_angle_d2_to_d1);

    let v3: i64 = 324_449_474;
    let v4: i64 = 42_356_418;
    let d3 = v3.to_360();
    let d4 = v4.to_360();
    let angle = d3.angle(d4); // the shortest angle
    let target_val = (v4 + Ring360::BASE - v3) % Ring360::BASE;
    assert_eq!(angle, target_val);

    let v5: i64 = 322_393_939;

    let d5 = v5.to_360();
    let angle = d3.angle(d5); // the shortest angle
    let target_val = (v5 - v3) % Ring360::BASE;
    assert_eq!(angle, target_val);
    // the same result comes from a plain raw value through angle_360()
    assert_eq!(v3.angle_360(v5), target_val);
}

#[test]
fn test_absolute_angles() {
    let v1: i64 = 271_500_000;
    let v2: i64 = 24_500_000;
    let v1_to_v2_absolute_angle: i64 = 113_000_000;
    let v2_to_v1_absolute_angle: i64 = 247_000_000;
    assert_eq!(v1.angle_360_abs(v2), v1_to_v2_absolute_angle);
    assert_eq!(v2.angle_360_abs(v1), v2_to_v1_absolute_angle);
}

#[test]
fn test_multiplication() {
    let v1: i64 = 271_893_635;
    let v2: i64 = 4;

    let d1 = Ring360(v1);

    let expected_result = (v1 * v2) % Ring360::BASE;

    // the product keeps the raw value as well as its degrees
    assert_eq!((d1.multiply(v2)).to_f64(), expected_result);

    let longitude_1 = 297_400_000i64.to_360();

    let value_2: i64 = 36_200_000;
    let longitude_2 = value_2.to_360();

    let result_1 = longitude_1.angle(longitude_2);

    let result_2 = longitude_1.angle_f64(value_2);
    assert_eq!(result_1, result_2);
}

#[test]
fn test_rotations() {
    let v1: i64 = -82_467_352;
    let v2: i64 = 432_202_828;

    let d1 = v1.to_360();
    let d2 = v2.to_360();

    let expected_rotations_1 = -1;
    let expected_rotations_2 = 1;
    assert_eq!(d1.rotations(), expected_rotations_1);
    assert_eq!(d2.rotations(), expected_rotations_2);
}

#[test]
fn test_progress() {
    let v1: i64 = -270_000_000;
    let v2: i64 = 540_000_000;

    let d1 = v1.to_360();
    let d2 = v2.to_360();

    let expected_progress_1: i64 = -750_000;
    let expected_progress_2: i64 = 1_500_000;
    assert_eq!(d1.progress(), expected_progress_1);
    assert_eq!(d2.progress(), expected_progress_2);
}

#[test]
fn test_gis_180_conversions() {
    let v1: i64 = -75_000_000;
    let v1_360_system: i64 = 285_000_000;

    let d1 = v1.to_360_gis();

    assert_eq!(d1.degrees(), v1_360_system);

    assert_eq!(d1.to_gis(), v1);

    let v3: i64 = -179_000_000;
    let v4: i64 = 179_000_000;

    let d3 = v3.to_360_gis();
    let d4 = v4.to_360_gis();

    assert_eq!(d3.degrees(), 181_000_000);

    assert_eq!(d3.angle(d4), -2_000_000);

    assert_eq!((-120_000_000i64).to_360_gis().degrees(), 240_000_000);

    assert_eq!((-179_000_000i64).to_360_gis().degrees(), 181_000_000);
}

// Both constructors give the same degree value, but different numbers of rotations
#[test]
fn test_from_gis_constructor() {
    let gis_180_value: i64 = -90_000_000;

    let expected_360_value: i64 = 270_000_000;
    let value_with_default_constructor = Ring360(gis_180_value);
    let value_with_gis_constructor = Ring360::from_gis(gis_180_value);

    assert_eq!(value_with_default_constructor.degrees(), expected_360_value);
    assert_eq!(value_with_gis_constructor.degrees(), expected_360_value);

    assert_eq!(value_with_default_constructor.rotations(), -1);
    assert_eq!(value_with_gis_constructor.rotations(), 0);
}

#[test]
fn test_mod_360() {
    let negative_lng: i64 = -31_500_000;
    let expected_360_lng: i64 = 328_500_000;

    assert_eq!(negative_lng.mod_360(), expected_360_lng);
}
