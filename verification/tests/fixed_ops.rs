//! Arithmetic and approximation checks for the fixed-point scalar.

use rt_weekend::fixed::{Fixed, SCALE};

fn to_f64(x: Fixed) -> f64 {
    x.raw() as f64 / SCALE as f64
}

#[test]
fn from_int_and_ratio() {
    assert_eq!(Fixed::from_int(1).raw(), SCALE);
    assert_eq!(Fixed::from_int(-2).raw(), -2 * SCALE);
    assert_eq!(Fixed::from_ratio(1, 2).raw(), SCALE / 2);
    assert_eq!(Fixed::from_ratio(-1, 2).raw(), -(SCALE / 2));
    assert_eq!(Fixed::from_ratio(1, 0).raw(), i64::MAX);
}

#[test]
fn saturating_arithmetic() {
    let big = Fixed::from_raw(i64::MAX);
    assert_eq!(big.plus(big).raw(), i64::MAX);
    assert_eq!(Fixed::from_raw(i64::MIN).minus(big).raw(), i64::MIN);
    assert_eq!(Fixed::from_int(3).times(Fixed::from_int(4)).raw(), 12 * SCALE);
    assert_eq!(Fixed::from_int(7).div_by(Fixed::from_int(2)).raw(), 3 * SCALE + SCALE / 2);
    assert_eq!(Fixed::from_int(5).div_by(Fixed::zero()).raw(), i64::MAX);
    assert_eq!(Fixed::from_int(-5).div_by(Fixed::zero()).raw(), i64::MIN);
}

#[test]
fn sqrt_exact_on_squares() {
    assert_eq!(Fixed::from_int(4).sqrt().raw(), 2 * SCALE);
    assert_eq!(Fixed::from_int(9).sqrt().raw(), 3 * SCALE);
    assert_eq!(Fixed::zero().sqrt().raw(), 0);
    let two = to_f64(Fixed::from_int(2).sqrt());
    assert!((two - 1.41421356).abs() < 1e-4);
}

#[test]
fn trig_approximations() {
    let pi = std::f64::consts::PI;
    let half_pi = Fixed::from_raw(rt_weekend::trig::HALF_PI_RAW);
    assert!((to_f64(half_pi.sin()) - 1.0).abs() < 1e-3);
    assert!(to_f64(Fixed::zero().cos()) == 1.0);
    let deg45 = Fixed::from_int(45).to_radians();
    assert!((to_f64(deg45.tan()) - 1.0).abs() < 1e-3);
    let pi_fix = to_f64(Fixed::from_raw(rt_weekend::trig::PI_RAW));
    assert!((pi_fix - pi).abs() < 1e-6);
}

#[test]
fn acos_and_atan2() {
    let a = Fixed::zero().acos();
    assert!((to_f64(a) - std::f64::consts::FRAC_PI_2).abs() < 1e-3);
    let b = Fixed::atan2(Fixed::from_int(1), Fixed::from_int(1));
    assert!((to_f64(b) - std::f64::consts::FRAC_PI_4).abs() < 1e-3);
    let c = Fixed::atan2(Fixed::from_int(1), Fixed::from_int(-1));
    assert!((to_f64(c) - 3.0 * std::f64::consts::FRAC_PI_4).abs() < 1e-3);
}

#[test]
fn ln_on_unit_interval() {
    let half = Fixed::from_ratio(1, 2).ln_unit();
    assert!((to_f64(half) + std::f64::consts::LN_2).abs() < 1e-3);
    let tenth = Fixed::from_ratio(1, 10).ln_unit();
    assert!((to_f64(tenth) + 2.302585).abs() < 1e-3);
    assert_eq!(Fixed::zero().ln_unit().raw(), i64::MIN);
}
