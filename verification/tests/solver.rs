//! The max-long solver end to end: the boundary shortcut, the budget bind,
//! the Newton path, the iteration cap, and the failure modes.

use hyperdrive_math::fixed::Fixed;
use hyperdrive_math::max_long::MaxLongError;
use hyperdrive_math::state::{PoolConfig, PoolInfo, State};

fn amt(raw: u128) -> Fixed {
    Fixed { raw }
}

const ONE: u128 = 1_000_000_000_000_000_000;
const THOUSAND: u128 = 1_000 * ONE;

/// A pool with one hundred thousand share reserves, a one percent curve
/// fee and a ten percent governance fee; bond reserves, long exposure and
/// time stretch vary per scenario.
fn pool(bond_reserves: u128, long_exposure: u128, time_stretch: u128) -> State {
    State {
        config: PoolConfig {
            initial_share_price: amt(ONE),
            minimum_share_reserves: amt(ONE),
            time_stretch: amt(time_stretch),
            curve_fee: amt(ONE / 100),
            governance_fee: amt(ONE / 10),
            checkpoint_duration: 86_400,
        },
        info: PoolInfo {
            share_reserves: amt(100 * THOUSAND),
            bond_reserves: amt(bond_reserves),
            share_adjustment: 0,
            longs_outstanding: amt(0),
            long_exposure: amt(long_exposure),
            share_price: amt(ONE),
        },
    }
}

/// The reference pool: a five percent time stretch and no exposure.
fn reference_state() -> State {
    pool(110 * THOUSAND, 0, ONE / 20)
}

/// A heavily exposed pool with a fifty percent time stretch: insolvent at
/// the curve's boundary, so the solver has to iterate, and the analytic
/// guess stays conservative.
fn newton_state() -> State {
    pool(225 * THOUSAND, 90 * THOUSAND, ONE / 2)
}

/// The absolute boundary base amount of a state, from the max-buy trade.
fn boundary_base(s: &State) -> Fixed {
    let (dz, _dy) = s.get_max_buy().expect("max buy in domain");
    s.info.share_price.mul_down(dz).expect("base in range")
}

/// Whether a base amount projects a feasible solvency.
fn feasible(s: &State, x: Fixed, ce: i128) -> bool {
    match s.get_long_amount(x) {
        Some(bonds) => s.solvency_after_long(x, bonds, ce).is_some(),
        None => false,
    }
}

/// Whether the boundary trade itself is infeasible for a state.
fn boundary_infeasible(s: &State) -> bool {
    let (dz, dy) = s.get_max_buy().unwrap();
    let base = s.info.share_price.mul_down(dz).unwrap();
    let fee = s.long_curve_fee(base).unwrap();
    let bond = dy.minus(fee).unwrap();
    s.solvency_after_long(base, bond, 0).is_none()
}

#[test]
fn zero_budget_returns_zero() {
    let s = reference_state();
    assert_eq!(s.get_max_long(amt(0), 0, None), Ok(amt(0)));
}

#[test]
fn zero_budget_returns_zero_under_exposure() {
    let s = newton_state();
    assert_eq!(s.get_max_long(amt(0), 0, None), Ok(amt(0)));
}

#[test]
fn large_budget_stops_at_the_pool_not_the_budget() {
    let s = reference_state();
    let budget = amt(1_000 * THOUSAND);
    let r = s.get_max_long(budget, 0, None).expect("solver succeeds");
    let boundary = boundary_base(&s);
    assert!(r.raw < budget.raw);
    assert!(r.raw <= boundary.raw);
    // The answer is the budget, the boundary trade, or a feasible amount.
    assert!(r == budget || r == boundary || feasible(&s, r, 0));
}

#[test]
fn small_budget_binds() {
    let s = reference_state();
    let budget = amt(2 * THOUSAND);
    assert_eq!(s.get_max_long(budget, 0, None), Ok(budget));
}

#[test]
fn newton_path_stays_feasible_and_below_boundary() {
    let s = newton_state();
    assert!(boundary_infeasible(&s));
    let boundary = boundary_base(&s);
    let r = s
        .get_max_long(amt(1_000 * THOUSAND), 0, None)
        .expect("solver succeeds");
    assert!(r.raw > 0);
    assert!(r.raw < boundary.raw);
    assert!(feasible(&s, r, 0));
}

#[test]
fn newton_budget_bind_mid_iteration() {
    let s = newton_state();
    let budget = amt(THOUSAND);
    assert_eq!(s.get_max_long(budget, 0, None), Ok(budget));
}

#[test]
fn zero_iterations_return_the_initial_guess() {
    let s = newton_state();
    let boundary = boundary_base(&s);
    let guess = s.max_long_guess(boundary, 0).expect("guess in domain");
    assert_eq!(s.get_max_long(amt(1_000 * THOUSAND), 0, Some(0)), Ok(guess));
}

#[test]
fn infeasible_initial_guess_is_a_loud_failure() {
    // At a five percent time stretch this exposure level makes the pool
    // insolvent at the boundary while the blended-price guess overshoots
    // the true maximum: the solver must refuse, naming the guess.
    let s = pool(150 * THOUSAND, 99_800 * ONE, ONE / 20);
    assert!(boundary_infeasible(&s));
    let boundary = boundary_base(&s);
    let guess = s.max_long_guess(boundary, 0).expect("guess in domain");
    assert_eq!(
        s.get_max_long(amt(1_000 * THOUSAND), 0, None),
        Err(MaxLongError::InitialGuessInfeasible { guess })
    );
}

#[test]
fn degenerate_configuration_fails_loudly() {
    // A zero initial share price leaves the curve maths undefined.
    let mut s = reference_state();
    s.config.initial_share_price = amt(0);
    assert_eq!(
        s.get_max_long(amt(THOUSAND), 0, None),
        Err(MaxLongError::Arithmetic)
    );
}

#[test]
fn long_amount_monotone_in_payment() {
    let s = reference_state();
    let lo = s.get_long_amount(amt(THOUSAND)).expect("in domain");
    let hi = s.get_long_amount(amt(2 * THOUSAND)).expect("in domain");
    assert!(lo.raw <= hi.raw);
    // And a long pays out more bonds than base at a sub-unit spot price.
    assert!(lo.raw > THOUSAND);
}
