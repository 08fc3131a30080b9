//! Long pricing and the solvency model on states whose spot price is
//! exactly computable (a unit time stretch makes the power trivial), plus
//! the monotonicity scenarios.

use hyperdrive_math::fixed::Fixed;
use hyperdrive_math::state::{PoolConfig, PoolInfo, State};

fn f18(raw: u128) -> Fixed {
    Fixed { raw }
}

const ONE: u128 = 1_000_000_000_000_000_000;

/// A pool whose spot price is exactly one half: a unit time stretch, five
/// (effective) share reserves, ten bond reserves.
fn half_price_state(long_exposure: u128) -> State {
    State {
        config: PoolConfig {
            initial_share_price: f18(ONE),
            minimum_share_reserves: f18(ONE / 2),
            time_stretch: f18(ONE),
            curve_fee: f18(ONE / 10),
            governance_fee: f18(ONE / 2),
            checkpoint_duration: 86_400,
        },
        info: PoolInfo {
            share_reserves: f18(5 * ONE),
            bond_reserves: f18(10 * ONE),
            share_adjustment: 0,
            longs_outstanding: f18(0),
            long_exposure: f18(long_exposure),
            share_price: f18(ONE),
        },
    }
}

#[test]
fn spot_price_exact() {
    let s = half_price_state(ONE);
    assert_eq!(s.get_spot_price(), Some(f18(ONE / 2)));
}

#[test]
fn long_curve_fee_exact() {
    // fee = 0.1 * (1 / 0.5 - 1) * 4 = 0.4.
    let s = half_price_state(ONE);
    assert_eq!(s.long_curve_fee(f18(4 * ONE)), Some(f18(4 * ONE / 10)));
}

#[test]
fn long_governance_fee_exact() {
    // governance fee = 0.5 * 0.5 * 0.4 = 0.1.
    let s = half_price_state(ONE);
    assert_eq!(s.long_governance_fee(f18(4 * ONE)), Some(f18(ONE / 10)));
}

#[test]
fn fees_vanish_at_zero_payment() {
    let s = half_price_state(ONE);
    assert_eq!(s.long_curve_fee(f18(0)), Some(f18(0)));
    assert_eq!(s.long_governance_fee(f18(0)), Some(f18(0)));
}

#[test]
fn solvency_exact() {
    // 5 - 1 / 1 - 0.5 = 3.5.
    let s = half_price_state(ONE);
    assert_eq!(s.get_solvency(), Some(f18(35 * ONE / 10)));
}

#[test]
fn solvency_falls_as_exposure_grows() {
    let lo = half_price_state(ONE).get_solvency().unwrap();
    let hi = half_price_state(2 * ONE).get_solvency().unwrap();
    assert_eq!(hi, f18(25 * ONE / 10));
    assert!(hi.raw < lo.raw);
}

#[test]
fn solvency_absent_when_reserves_exhausted() {
    assert_eq!(half_price_state(10 * ONE).get_solvency(), None);
}

#[test]
fn solvency_after_long_exact() {
    // x = 4, bonds = 5: reserves 5 + 4 - 0.1 = 8.9; exposure
    // 1 + 10 - 4 + 0.1 = 7.1; solvency 8.9 - 7.1 - 0.5 = 1.3.
    let s = half_price_state(ONE);
    assert_eq!(
        s.solvency_after_long(f18(4 * ONE), f18(5 * ONE), 0),
        Some(f18(13 * ONE / 10))
    );
}

#[test]
fn solvency_after_long_infeasible_when_bonds_large() {
    // bonds = 7 pushes the projected exposure past the reserves.
    let s = half_price_state(ONE);
    assert_eq!(s.solvency_after_long(f18(4 * ONE), f18(7 * ONE), 0), None);
}

#[test]
fn checkpoint_netting_subtracts_only_the_negative_part() {
    let s = half_price_state(ONE);
    let minus_two: i128 = -2_000_000_000_000_000_000;
    let plus_two: i128 = 2_000_000_000_000_000_000;
    // A negative checkpoint exposure frees two shares of headroom.
    assert_eq!(
        s.solvency_after_long(f18(4 * ONE), f18(5 * ONE), minus_two),
        Some(f18(33 * ONE / 10))
    );
    // A positive one changes nothing.
    assert_eq!(
        s.solvency_after_long(f18(4 * ONE), f18(5 * ONE), plus_two),
        s.solvency_after_long(f18(4 * ONE), f18(5 * ONE), 0)
    );
}
