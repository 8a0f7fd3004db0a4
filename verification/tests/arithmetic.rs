//! Unit tests for the shared fixed-point arithmetic.

use arena_core::fixed::{clamp64, cos_fp, isqrt64, sin_fp, tdiv64, wrap_angle, FP_ONE};

#[test]
fn truncating_division_rounds_toward_zero() {
    assert_eq!(tdiv64(7, 2), 3);
    assert_eq!(tdiv64(-7, 2), -3);
    assert_eq!(tdiv64(6, 3), 2);
    assert_eq!(tdiv64(-6, 3), -2);
    assert_eq!(tdiv64(0, 5), 0);
}

#[test]
fn integer_square_root() {
    assert_eq!(isqrt64(0), 0);
    assert_eq!(isqrt64(1), 1);
    assert_eq!(isqrt64(3), 1);
    assert_eq!(isqrt64(4), 2);
    assert_eq!(isqrt64(999999), 999);
    assert_eq!(isqrt64(1000000), 1000);
    assert_eq!(isqrt64(u64::MAX), 4294967295);
}

#[test]
fn sine_exact_points() {
    assert_eq!(sin_fp(0), 0);
    assert_eq!(sin_fp(30000), FP_ONE / 2);
    assert_eq!(sin_fp(90000), FP_ONE);
    assert_eq!(sin_fp(150000), FP_ONE / 2);
    assert_eq!(sin_fp(180000), 0);
    assert_eq!(sin_fp(270000), -FP_ONE);
    assert_eq!(cos_fp(0), FP_ONE);
    assert_eq!(cos_fp(90000), 0);
    assert_eq!(cos_fp(180000), -FP_ONE);
    assert_eq!(cos_fp(270000), 0);
}

#[test]
fn sine_stays_in_range() {
    let mut a = 0i64;
    while a < 360000 {
        let s = sin_fp(a);
        let c = cos_fp(a);
        assert!(-FP_ONE <= s && s <= FP_ONE);
        assert!(-FP_ONE <= c && c <= FP_ONE);
        a += 1111;
    }
}

#[test]
fn angle_wrap_and_clamp() {
    assert_eq!(wrap_angle(-1), 359999);
    assert_eq!(wrap_angle(0), 0);
    assert_eq!(wrap_angle(359999), 359999);
    assert_eq!(wrap_angle(360000), 0);
    assert_eq!(wrap_angle(360001), 1);
    assert_eq!(clamp64(5, 10), 5);
    assert_eq!(clamp64(-5, 10), -5);
    assert_eq!(clamp64(15, 10), 10);
    assert_eq!(clamp64(-15, 10), -10);
}
