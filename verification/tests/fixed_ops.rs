//! The fixed-point primitive: rounding directions, checked edges, and the
//! fractional power.

use hyperdrive_math::fixed::{Fixed, SCALE};

fn fx(raw: u128) -> Fixed {
    Fixed { raw }
}

#[test]
fn mul_div_rounds_in_both_directions() {
    // 10 * 10 / 3 = 33.33..: floor and ceiling must differ by one.
    assert_eq!(fx(10).mul_div_down(fx(10), fx(3)), Some(fx(33)));
    assert_eq!(fx(10).mul_div_up(fx(10), fx(3)), Some(fx(34)));
    // An exact quotient rounds the same both ways.
    assert_eq!(fx(10).mul_div_down(fx(10), fx(4)), Some(fx(25)));
    assert_eq!(fx(10).mul_div_up(fx(10), fx(4)), Some(fx(25)));
}

#[test]
fn mul_div_exact_value() {
    // 6 * 7 / 2 = 21, in whole fixed-point units.
    assert_eq!(
        fx(6 * SCALE).mul_div_down(fx(7 * SCALE), fx(2 * SCALE)),
        Some(fx(21 * SCALE))
    );
}

#[test]
fn division_by_zero_is_absent() {
    assert_eq!(fx(SCALE).div_down(fx(0)), None);
    assert_eq!(fx(SCALE).div_up(fx(0)), None);
    assert_eq!(fx(1).mul_div_down(fx(1), fx(0)), None);
}

#[test]
fn checked_addition_and_subtraction_edges() {
    assert_eq!(fx(u128::MAX).plus(fx(1)), None);
    assert_eq!(fx(u128::MAX - 1).plus(fx(1)), Some(fx(u128::MAX)));
    assert_eq!(fx(3).minus(fx(5)), None);
    assert_eq!(fx(5).minus(fx(3)), Some(fx(2)));
}

#[test]
fn pow_square_root_of_four() {
    // 4 ^ 0.5 = 2, up to the decimal library's final precision.
    let r = fx(4 * SCALE).pow(fx(SCALE / 2)).expect("pow in domain");
    let two = 2 * SCALE;
    assert!(r.raw.abs_diff(two) < 1_000_000, "got {}", r.raw);
}

#[test]
fn pow_unit_exponent_is_identity() {
    let x = fx(123_456_789_000_000_000_000);
    assert_eq!(x.pow(fx(SCALE)), Some(x));
}
