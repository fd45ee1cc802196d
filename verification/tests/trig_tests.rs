use car_sim::fixed::FP;
use car_sim::trig::{
    atan2_fp, cos_fp, sin_fp, wrap, HALF_PI_FP, PI_FP, QUARTER_PI_FP, TWO_PI_FP,
};

#[test]
fn wrap_fixes_small_angles() {
    assert_eq!(wrap(0), 0);
    assert_eq!(wrap(PI_FP), PI_FP);
    assert_eq!(wrap(-PI_FP), -PI_FP);
    assert_eq!(wrap(123_456), 123_456);
}

#[test]
fn wrap_reduces_full_turns() {
    assert_eq!(wrap(TWO_PI_FP), 0);
    assert_eq!(wrap(TWO_PI_FP + 5), 5);
    assert_eq!(wrap(PI_FP + 2), 2 - PI_FP);
    assert_eq!(wrap(-(PI_FP + 2)), PI_FP - 2);
}

#[test]
fn wrap_is_odd() {
    let samples: [i64; 4] = [1, PI_FP, 10_000_000, 123_456_789];
    for i in 0..samples.len() {
        let h: i64 = samples[i];
        assert_eq!(wrap(-h), -wrap(h));
    }
}

#[test]
fn sine_known_values() {
    assert_eq!(sin_fp(0), 0);
    assert_eq!(sin_fp(PI_FP), 0);
    let one: i64 = sin_fp(HALF_PI_FP);
    assert!((one - FP).abs() < 1_000, "sin(pi/2) = {}", one);
    let half: i64 = sin_fp(523_599);
    assert!((half - 500_000).abs() < 1_500, "sin(pi/6) = {}", half);
}

#[test]
fn cosine_known_values() {
    let one: i64 = cos_fp(0);
    assert!((one - FP).abs() < 1_000, "cos(0) = {}", one);
    let minus_one: i64 = cos_fp(PI_FP);
    assert!((minus_one + FP).abs() < 1_000, "cos(pi) = {}", minus_one);
    let zero: i64 = cos_fp(HALF_PI_FP);
    assert!(zero.abs() < 1_000, "cos(pi/2) = {}", zero);
}

#[test]
fn sine_is_odd_and_cosine_even() {
    let samples: [i64; 5] = [1, 300_000, HALF_PI_FP, PI_FP, 40_000_000];
    for i in 0..samples.len() {
        let h: i64 = samples[i];
        assert_eq!(sin_fp(-h), -sin_fp(h));
        assert_eq!(cos_fp(-h), cos_fp(h));
    }
}

#[test]
fn atan2_axes() {
    assert_eq!(atan2_fp(0, 0), 0);
    assert_eq!(atan2_fp(0, 5_000_000), 0);
    assert_eq!(atan2_fp(3_000_000, 0), HALF_PI_FP);
    assert_eq!(atan2_fp(-3_000_000, 0), -HALF_PI_FP);
}

#[test]
fn atan2_known_slopes() {
    let eighth: i64 = atan2_fp(1_000_000, 1_000_000);
    assert!((eighth - QUARTER_PI_FP).abs() < 2_000, "atan(1) = {}", eighth);
    let shallow: i64 = atan2_fp(1_000_000, 2_000_000);
    assert!((shallow - 463_648).abs() < 2_000, "atan(1/2) = {}", shallow);
    let steep: i64 = atan2_fp(2_000_000, 1_000_000);
    assert!((steep - 1_107_149).abs() < 2_000, "atan(2) = {}", steep);
}

#[test]
fn atan2_is_odd_in_y() {
    let ys: [i64; 3] = [1, 700_000, 9_000_000];
    for i in 0..ys.len() {
        let y: i64 = ys[i];
        assert_eq!(atan2_fp(-y, 2_000_000), -atan2_fp(y, 2_000_000));
    }
}
