use car_sim::fixed::{clamp, fdiv, fmul, isqrt, mag_fp, norm2, sat_add, sat_sub, sgn, FP, FP_SAT};

#[test]
fn fmul_scales_products_down() {
    assert_eq!(fmul(2_500_000, 4_000_000), 10_000_000);
    assert_eq!(fmul(FP, FP), FP);
    assert_eq!(fmul(0, 123_456), 0);
}

#[test]
fn fmul_truncates_toward_zero() {
    assert_eq!(fmul(1, 1), 0);
    assert_eq!(fmul(-1_500_000, 1), -1);
    assert_eq!(fmul(1_500_000, 1), 1);
}

#[test]
fn fmul_signs() {
    assert_eq!(fmul(-2_500_000, 4_000_000), -10_000_000);
    assert_eq!(fmul(2_500_000, -4_000_000), -10_000_000);
    assert_eq!(fmul(-2_500_000, -4_000_000), 10_000_000);
}

#[test]
fn fmul_saturates() {
    assert_eq!(fmul(FP_SAT, FP_SAT), FP_SAT);
    assert_eq!(fmul(-FP_SAT, FP_SAT), -FP_SAT);
}

#[test]
fn fdiv_scales_quotients_up() {
    assert_eq!(fdiv(1_000_000, 3_000_000), 333_333);
    assert_eq!(fdiv(-1_000_000, 3_000_000), -333_333);
    assert_eq!(fdiv(10_000_000, 2_000_000), 5_000_000);
}

#[test]
fn fdiv_by_zero_is_zero() {
    assert_eq!(fdiv(42, 0), 0);
}

#[test]
fn sat_add_saturates() {
    assert_eq!(sat_add(FP_SAT, FP_SAT), FP_SAT);
    assert_eq!(sat_add(-FP_SAT, -FP_SAT), -FP_SAT);
    assert_eq!(sat_add(1, 2), 3);
    assert_eq!(sat_sub(1, 2), -1);
    assert_eq!(sat_sub(-FP_SAT, FP_SAT), -FP_SAT);
}

#[test]
fn isqrt_exact_values() {
    assert_eq!(isqrt(0), 0);
    assert_eq!(isqrt(1), 1);
    assert_eq!(isqrt(2), 1);
    assert_eq!(isqrt(4), 2);
    assert_eq!(isqrt(999_999), 999);
    assert_eq!(isqrt(1_000_000_000_000), 1_000_000);
}

#[test]
fn norm2_is_the_euclidean_length() {
    assert_eq!(norm2(3_000_000, 4_000_000), 5_000_000);
    assert_eq!(norm2(-3_000_000, 4_000_000), 5_000_000);
    assert_eq!(norm2(0, 0), 0);
    assert_eq!(norm2(0, -7_000_000), 7_000_000);
}

#[test]
fn sgn_clamp_mag_basics() {
    assert_eq!(sgn(17), FP);
    assert_eq!(sgn(-17), -FP);
    assert_eq!(sgn(0), 0);
    assert_eq!(clamp(5, -2, 2), 2);
    assert_eq!(clamp(-5, -2, 2), -2);
    assert_eq!(clamp(1, -2, 2), 1);
    assert_eq!(mag_fp(-9), 9);
    assert_eq!(mag_fp(9), 9);
}
