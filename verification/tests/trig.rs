use solar_nav::math::{HALF_PI_FP, PI_FP, SCALE};
use solar_nav::trig::{cos_fp, sin_fp};

#[test]
fn sine_at_cardinal_angles() {
    assert_eq!(sin_fp(0), 0);
    assert_eq!(sin_fp(HALF_PI_FP), SCALE);
    assert_eq!(sin_fp(PI_FP), 0);
    assert_eq!(sin_fp(PI_FP + HALF_PI_FP), -SCALE);
}

#[test]
fn cosine_at_cardinal_angles() {
    assert_eq!(cos_fp(0), SCALE);
    assert_eq!(cos_fp(HALF_PI_FP), 0);
    assert_eq!(cos_fp(PI_FP), -SCALE);
    assert_eq!(cos_fp(PI_FP + HALF_PI_FP), 0);
}

#[test]
fn sine_stays_in_range() {
    let mut a: i64 = 0;
    while a < 6284 {
        let s = sin_fp(a);
        let c = cos_fp(a);
        assert!(-SCALE <= s && s <= SCALE);
        assert!(-SCALE <= c && c <= SCALE);
        a += 7;
    }
}

#[test]
fn sine_near_sixth_of_turn() {
    // sin(pi/6) is one half; the rational approximation lands within a
    // few thousandths of 500
    let s = sin_fp(524);
    assert!((s - 500).abs() <= 5);
}
