use heston::Fixed;
use heston::deviate::deviate_from_units;
use heston::deviate::unit_from_u64;
use heston::fixed::MAX_MANTISSA;
use heston::fixed::SCALE;

#[test]
fn from_int_scales_by_nine_digits() {
    assert_eq!(Fixed::from_int(100).mantissa(), 100 * SCALE);
    assert_eq!(Fixed::from_int(-3).mantissa(), -3 * SCALE);
    assert_eq!(Fixed::zero().mantissa(), 0);
}

#[test]
fn from_scaled_saturates_at_the_bounds() {
    assert_eq!(Fixed::from_scaled(42).mantissa(), 42);
    assert_eq!(Fixed::from_scaled(MAX_MANTISSA + 1).mantissa(), MAX_MANTISSA);
    assert_eq!(Fixed::from_scaled(-MAX_MANTISSA - 7).mantissa(), -MAX_MANTISSA);
}

#[test]
fn sat_add_is_exact_in_range() {
    let a = Fixed::from_scaled(1_500_000_000);
    let b = Fixed::from_scaled(250_000_000);
    assert_eq!(a.sat_add(b).mantissa(), 1_750_000_000);
    assert_eq!(a.sat_sub(b).mantissa(), 1_250_000_000);
}

#[test]
fn sat_add_saturates() {
    let big = Fixed::from_scaled(MAX_MANTISSA);
    assert_eq!(big.sat_add(big).mantissa(), MAX_MANTISSA);
    let low = Fixed::from_scaled(-MAX_MANTISSA);
    assert_eq!(low.sat_add(low).mantissa(), -MAX_MANTISSA);
}

#[test]
fn sat_mul_is_exact_in_range() {
    let a = Fixed::from_scaled(1_500_000_000); // 1.5
    let b = Fixed::from_int(2);
    assert_eq!(a.sat_mul(b).mantissa(), 3_000_000_000); // 3.0
    assert_eq!(Fixed::from_int(-3).sat_mul(Fixed::from_int(2)).mantissa(), -6 * SCALE);
    assert_eq!(Fixed::from_int(-3).sat_mul(Fixed::from_int(-2)).mantissa(), 6 * SCALE);
}

#[test]
fn sat_mul_truncates_toward_zero() {
    // 2e-9 * 0.7 = 1.4e-9, truncated to 1e-9; symmetric for the negative.
    let tiny = Fixed::from_scaled(2);
    let frac = Fixed::from_scaled(700_000_000);
    assert_eq!(tiny.sat_mul(frac).mantissa(), 1);
    assert_eq!(Fixed::from_scaled(-2).sat_mul(frac).mantissa(), -1);
}

#[test]
fn sat_mul_saturates() {
    let big = Fixed::from_scaled(MAX_MANTISSA);
    assert_eq!(big.sat_mul(big).mantissa(), MAX_MANTISSA);
    assert_eq!(big.sat_mul(Fixed::from_scaled(-MAX_MANTISSA)).mantissa(), -MAX_MANTISSA);
}

#[test]
fn sqrt_floor_exact_squares() {
    assert_eq!(Fixed::from_int(4).sqrt_floor().mantissa(), 2 * SCALE);
    assert_eq!(Fixed::zero().sqrt_floor().mantissa(), 0);
    assert_eq!(Fixed::from_scaled(250_000_000).sqrt_floor().mantissa(), 500_000_000);
}

#[test]
fn sqrt_floor_rounds_down() {
    // sqrt(2) = 1.41421356237...; the floor at nine digits is 1.414213562.
    assert_eq!(Fixed::from_int(2).sqrt_floor().mantissa(), 1_414_213_562);
}

#[test]
fn unit_from_u64_spans_the_unit_interval() {
    assert_eq!(unit_from_u64(0).mantissa(), 0);
    assert_eq!(unit_from_u64(u64::MAX).mantissa(), SCALE - 1);
    assert_eq!(unit_from_u64(1u64 << 63).mantissa(), SCALE / 2);
}

#[test]
fn deviate_transform_is_sqrt_u1_times_u2() {
    // sqrt(0.25) * 0.5 == 0.25
    let u1 = Fixed::from_scaled(250_000_000);
    let u2 = Fixed::from_scaled(500_000_000);
    assert_eq!(deviate_from_units(u1, u2).mantissa(), 250_000_000);
    // A zero draw on either side gives a zero deviate.
    assert_eq!(deviate_from_units(Fixed::zero(), u2).mantissa(), 0);
    assert_eq!(deviate_from_units(u1, Fixed::zero()).mantissa(), 0);
}
