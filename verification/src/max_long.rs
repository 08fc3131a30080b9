//! The solvency-constrained max-long solver: a boundary shortcut, a
//! two-pass analytic initial guess, and a bounded Newton iteration on the
//! pool's projected solvency.
//!
//! The executable solver is pinned, step for step, to the recursive spec
//! model [`s_max_long`] / [`s_newton`]; the laws at the end of the module
//! are proved of that model and so, through the solver's contract, of the
//! solver itself.

use crate::curve::{s_max_buy, s_one_minus_ts, s_spot_price};
use crate::fixed::{o_add, o_div, o_div_up, o_mul, o_mul_div_down, o_pow, o_sub, opt_v, Fixed, SCALE};
use crate::long::{
    s_get_solvency, s_long_amount, s_long_curve_fee, s_solvency_after_long,
    s_solvency_after_long_derivative, TWO_SCALE,
};
use crate::state::{neg_part, s_neg_part, State};
use vstd::prelude::*;

verus! {

/// The interpolation cap of the initial guess, in raw units: eight tenths.
pub const EIGHT_TENTHS: u128 = 800_000_000_000_000_000;

/// How a max-long calculation can fail. The first two variants are fatal
/// design-invariant violations and carry the offending inputs; the last
/// records a fixed-point step that left the representable domain.
#[derive(Clone, Copy, Debug, PartialEq, Eq, Structural)]
pub enum MaxLongError {
    /// The analytic initial guess, which is meant to be conservative,
    /// projected an infeasible solvency.
    InitialGuessInfeasible { guess: Fixed },
    /// A Newton iterate reached the absolute boundary base amount, a value
    /// known to be infeasible.
    AbsoluteMaxExceeded { guess: Fixed, absolute_max: Fixed },
    /// A fixed-point computation left the representable domain.
    Arithmetic,
}

/// The mathematical value carried by a solver result.
pub open spec fn res_v(r: Result<Fixed, MaxLongError>) -> Result<int, MaxLongError> {
    match r {
        Ok(f) => Ok(f@),
        Err(e) => Err(e),
    }
}

/// The iteration cap: the caller's override, or seven.
pub open spec fn s_iters(m: Option<usize>) -> nat {
    match m {
        Some(k) => k as nat,
        None => 7,
    }
}

/// Closed-form estimate of the max long from the pool's current solvency
/// and a conservative price estimate:
/// `(c / 2) * (s_0 + min(ce, 0) / c) / (p_r^-1 + phi_g * phi_c * (1 - p) - 1 - phi_c * (p^-1 - 1))`.
pub open spec fn s_max_long_estimate(
    s: State,
    est_price: Option<int>,
    spot: Option<int>,
    ce: int,
) -> Option<int> {
    o_div(
        o_mul_div_down(
            o_add(s_get_solvency(s), o_div(Some(s_neg_part(ce)), Some(s.info.share_price@))),
            Some(s.info.share_price@),
            Some(TWO_SCALE as int),
        ),
        o_sub(
            o_sub(
                o_add(
                    o_div(Some(SCALE as int), est_price),
                    o_mul(
                        o_mul(Some(s.config.governance_fee@), Some(s.config.curve_fee@)),
                        o_sub(Some(SCALE as int), spot),
                    ),
                ),
                Some(SCALE as int),
            ),
            o_mul(
                Some(s.config.curve_fee@),
                o_sub(o_div(Some(SCALE as int), spot), Some(SCALE as int)),
            ),
        ),
    )
}

/// The two-pass initial guess: a first estimate at the spot price, an
/// interpolation weight `t = (guess / boundary)^(1 / (1 - t_s)) * 0.8`, and
/// a second estimate at the blended price `p * (1 - t) + t`.
pub open spec fn s_max_long_guess(s: State, abs_max: int, ce: int) -> Option<int> {
    let sp = s_spot_price(s);
    let first = s_max_long_estimate(s, sp, sp, ce);
    let t = o_mul(
        o_pow(o_div(first, Some(abs_max)), o_div_up(Some(SCALE as int), s_one_minus_ts(s))),
        Some(EIGHT_TENTHS as int),
    );
    let blended = o_add(o_mul(sp, o_sub(Some(SCALE as int), t)), o_mul(Some(SCALE as int), t));
    s_max_long_estimate(s, blended, sp, ce)
}

/// The absolute boundary trade in base terms: the base amount that drives
/// the spot price to one, and the bond amount it buys net of the curve fee.
pub open spec fn s_abs_max(s: State) -> Option<(int, int)> {
    match s_max_buy(s) {
        Some((dz, dy)) => match o_mul(Some(s.info.share_price@), Some(dz)) {
            Some(base) => match o_sub(Some(dy), s_long_curve_fee(s, base)) {
                Some(bond) => Some((base, bond)),
                None => None,
            },
            None => None,
        },
        None => None,
    }
}

/// One Newton step at a time, for `n` remaining steps: stop on the budget,
/// on an undefined derivative, on an overshoot past feasibility, or when
/// the steps run out; fail loudly past the absolute boundary or out of the
/// representable domain.
pub open spec fn s_newton(
    s: State,
    budget: int,
    ce: int,
    abs_max: int,
    guess: int,
    solv: int,
    n: nat,
) -> Result<int, MaxLongError>
    decreases n,
{
    if n == 0 {
        Ok(guess)
    } else if guess >= abs_max {
        Err(
            MaxLongError::AbsoluteMaxExceeded {
                guess: (Fixed { raw: guess as u128 }),
                absolute_max: (Fixed { raw: abs_max as u128 }),
            },
        )
    } else if guess >= budget {
        Ok(budget)
    } else {
        match s_solvency_after_long_derivative(s, guess) {
            None => Ok(guess),
            Some(d) => match o_div(Some(solv), Some(d)) {
                None => Err(MaxLongError::Arithmetic),
                Some(step) => match o_add(Some(guess), Some(step)) {
                    None => Err(MaxLongError::Arithmetic),
                    Some(next) => match s_long_amount(s, next) {
                        None => Err(MaxLongError::Arithmetic),
                        Some(la) => match s_solvency_after_long(s, next, la, ce) {
                            None => Ok(guess),
                            Some(s2) => s_newton(s, budget, ce, abs_max, next, s2, (n - 1) as nat),
                        },
                    },
                },
            },
        }
    }
}

/// The whole solver: the boundary shortcut, then the initial guess, then
/// the bounded Newton iteration.
pub open spec fn s_max_long(s: State, budget: int, ce: int, n: nat) -> Result<int, MaxLongError> {
    match s_abs_max(s) {
        None => Err(MaxLongError::Arithmetic),
        Some((amb, ambond)) => match s_solvency_after_long(s, amb, ambond, ce) {
            Some(_) => Ok(
                if amb <= budget {
                    amb
                } else {
                    budget
                },
            ),
            None => match s_max_long_guess(s, amb, ce) {
                None => Err(MaxLongError::Arithmetic),
                Some(g) => match s_long_amount(s, g) {
                    None => Err(MaxLongError::Arithmetic),
                    Some(la) => match s_solvency_after_long(s, g, la, ce) {
                        None => Err(MaxLongError::InitialGuessInfeasible { guess: (Fixed { raw: g as u128 }) }),
                        Some(s0) => s_newton(s, budget, ce, amb, g, s0, n),
                    },
                },
            },
        },
    }
}

impl State {
    /// Closed-form estimate of the max long from the current solvency and
    /// a conservative price estimate.
    pub fn max_long_estimate(
        &self,
        estimate_price: Fixed,
        spot_price: Fixed,
        checkpoint_exposure: i128,
    ) -> (r: Option<Fixed>)
        ensures
            opt_v(r) == s_max_long_estimate(
                *self,
                Some(estimate_price@),
                Some(spot_price@),
                checkpoint_exposure as int,
            ),
    {
        let solvency = match self.get_solvency() {
            Some(v) => v,
            None => {
                return None;
            },
        };
        let netted = Fixed { raw: neg_part(checkpoint_exposure) };
        let net_shares = match netted.div_down(self.info.share_price) {
            Some(v) => v,
            None => {
                return None;
            },
        };
        let headroom = match solvency.plus(net_shares) {
            Some(v) => v,
            None => {
                return None;
            },
        };
        let num = match headroom.mul_div_down(self.info.share_price, Fixed { raw: TWO_SCALE }) {
            Some(v) => v,
            None => {
                return None;
            },
        };
        let inv_estimate = match (Fixed { raw: SCALE }).div_down(estimate_price) {
            Some(v) => v,
            None => {
                return None;
            },
        };
        let fees = match self.config.governance_fee.mul_down(self.config.curve_fee) {
            Some(v) => v,
            None => {
                return None;
            },
        };
        let discount = match (Fixed { raw: SCALE }).minus(spot_price) {
            Some(v) => v,
            None => {
                return None;
            },
        };
        let gain = match fees.mul_down(discount) {
            Some(v) => v,
            None => {
                return None;
            },
        };
        let grown = match inv_estimate.plus(gain) {
            Some(v) => v,
            None => {
                return None;
            },
        };
        let shrunk = match grown.minus(Fixed { raw: SCALE }) {
            Some(v) => v,
            None => {
                return None;
            },
        };
        let inv_spot = match (Fixed { raw: SCALE }).div_down(spot_price) {
            Some(v) => v,
            None => {
                return None;
            },
        };
        let premium = match inv_spot.minus(Fixed { raw: SCALE }) {
            Some(v) => v,
            None => {
                return None;
            },
        };
        let fee_term = match self.config.curve_fee.mul_down(premium) {
            Some(v) => v,
            None => {
                return None;
            },
        };
        let denom = match shrunk.minus(fee_term) {
            Some(v) => v,
            None => {
                return None;
            },
        };
        num.div_down(denom)
    }

    /// The two-pass analytic initial guess for the Newton iteration.
    pub fn max_long_guess(&self, absolute_max_base_amount: Fixed, checkpoint_exposure: i128) -> (r:
        Option<Fixed>)
        ensures
            opt_v(r) == s_max_long_guess(
                *self,
                absolute_max_base_amount@,
                checkpoint_exposure as int,
            ),
    {
        let spot = match self.get_spot_price() {
            Some(v) => v,
            None => {
                return None;
            },
        };
        let first = match self.max_long_estimate(spot, spot, checkpoint_exposure) {
            Some(v) => v,
            None => {
                return None;
            },
        };
        let ratio = match first.div_down(absolute_max_base_amount) {
            Some(v) => v,
            None => {
                return None;
            },
        };
        let one_minus_ts = match self.one_minus_time_stretch() {
            Some(v) => v,
            None => {
                return None;
            },
        };
        let exponent = match (Fixed { raw: SCALE }).div_up(one_minus_ts) {
            Some(v) => v,
            None => {
                return None;
            },
        };
        let powered = match ratio.pow(exponent) {
            Some(v) => v,
            None => {
                return None;
            },
        };
        let t = match powered.mul_down(Fixed { raw: EIGHT_TENTHS }) {
            Some(v) => v,
            None => {
                return None;
            },
        };
        let weight = match (Fixed { raw: SCALE }).minus(t) {
            Some(v) => v,
            None => {
                return None;
            },
        };
        let left = match spot.mul_down(weight) {
            Some(v) => v,
            None => {
                return None;
            },
        };
        let right = match (Fixed { raw: SCALE }).mul_down(t) {
            Some(v) => v,
            None => {
                return None;
            },
        };
        let blended = match left.plus(right) {
            Some(v) => v,
            None => {
                return None;
            },
        };
        self.max_long_estimate(blended, spot, checkpoint_exposure)
    }

    /// The max long that can be opened given a budget: the boundary trade
    /// when the pool stays solvent there, and otherwise a bounded Newton
    /// iteration from the analytic initial guess. The result is exactly the
    /// value of the spec model [`s_max_long`].
    pub fn get_max_long(
        &self,
        budget: Fixed,
        checkpoint_exposure: i128,
        maybe_max_iterations: Option<usize>,
    ) -> (r: Result<Fixed, MaxLongError>)
        ensures
            res_v(r) == s_max_long(
                *self,
                budget@,
                checkpoint_exposure as int,
                s_iters(maybe_max_iterations),
            ),
    {
        let (dz, dy) = match self.get_max_buy() {
            Some(p) => p,
            None => {
                return Err(MaxLongError::Arithmetic);
            },
        };
        let abs_base = match self.info.share_price.mul_down(dz) {
            Some(v) => v,
            None => {
                return Err(MaxLongError::Arithmetic);
            },
        };
        let fee = match self.long_curve_fee(abs_base) {
            Some(v) => v,
            None => {
                return Err(MaxLongError::Arithmetic);
            },
        };
        let abs_bond = match dy.minus(fee) {
            Some(v) => v,
            None => {
                return Err(MaxLongError::Arithmetic);
            },
        };
        if self.solvency_after_long(abs_base, abs_bond, checkpoint_exposure).is_some() {
            return Ok(
                if abs_base.raw <= budget.raw {
                    abs_base
                } else {
                    budget
                },
            );
        }
        let guess0 = match self.max_long_guess(abs_base, checkpoint_exposure) {
            Some(v) => v,
            None => {
                return Err(MaxLongError::Arithmetic);
            },
        };
        let la0 = match self.get_long_amount(guess0) {
            Some(v) => v,
            None => {
                return Err(MaxLongError::Arithmetic);
            },
        };
        let solv0 = match self.solvency_after_long(guess0, la0, checkpoint_exposure) {
            Some(v) => v,
            None => {
                return Err(MaxLongError::InitialGuessInfeasible { guess: guess0 });
            },
        };
        let iters: usize = match maybe_max_iterations {
            Some(k) => k,
            None => 7,
        };
        let mut guess = guess0;
        let mut solv = solv0;
        let mut i: usize = 0;
        while i < iters
            invariant
                i <= iters,
                s_max_long(*self, budget@, checkpoint_exposure as int, s_iters(maybe_max_iterations))
                    == s_newton(
                    *self,
                    budget@,
                    checkpoint_exposure as int,
                    abs_base@,
                    guess@,
                    solv@,
                    (iters - i) as nat,
                ),
            decreases iters - i,
        {
            if guess.raw >= abs_base.raw {
                return Err(MaxLongError::AbsoluteMaxExceeded { guess, absolute_max: abs_base });
            }
            if guess.raw >= budget.raw {
                return Ok(budget);
            }
            let d = match self.solvency_after_long_derivative(guess) {
                Some(v) => v,
                None => {
                    return Ok(guess);
                },
            };
            let step = match solv.div_down(d) {
                Some(v) => v,
                None => {
                    return Err(MaxLongError::Arithmetic);
                },
            };
            let next = match guess.plus(step) {
                Some(v) => v,
                None => {
                    return Err(MaxLongError::Arithmetic);
                },
            };
            let la = match self.get_long_amount(next) {
                Some(v) => v,
                None => {
                    return Err(MaxLongError::Arithmetic);
                },
            };
            match self.solvency_after_long(next, la, checkpoint_exposure) {
                Some(s2) => {
                    guess = next;
                    solv = s2;
                },
                None => {
                    return Ok(guess);
                },
            }
            i = i + 1;
        }
        Ok(guess)
    }
}

/// Whether a base amount is feasible: its net long amount is defined and
/// the projected solvency after opening it is itself defined.
pub open spec fn s_feasible(s: State, x: int, ce: int) -> bool {
    match s_long_amount(s, x) {
        Some(la) => s_solvency_after_long(s, x, la, ce) is Some,
        None => false,
    }
}

/// A successful Newton iteration started at a feasible guess ends at the
/// budget or at a feasible amount; and any answer other than a feasible
/// amount lies strictly below the absolute boundary.
pub proof fn lemma_newton_ok(
    s: State,
    budget: int,
    ce: int,
    abs_max: int,
    guess: int,
    solv: int,
    n: nat,
    r: int,
)
    requires
        s_newton(s, budget, ce, abs_max, guess, solv, n) == Result::<int, MaxLongError>::Ok(r),
        s_feasible(s, guess, ce),
    ensures
        r == budget || s_feasible(s, r, ce),
        r < abs_max || s_feasible(s, r, ce),
    decreases n,
{
    if n == 0 {
    } else if guess >= abs_max {
    } else if guess >= budget {
    } else {
        match s_solvency_after_long_derivative(s, guess) {
            None => {},
            Some(d) => match o_div(Some(solv), Some(d)) {
                None => {},
                Some(step) => match o_add(Some(guess), Some(step)) {
                    None => {},
                    Some(next) => match s_long_amount(s, next) {
                        None => {},
                        Some(la) => match s_solvency_after_long(s, next, la, ce) {
                            None => {},
                            Some(s2) => {
                                lemma_newton_ok(s, budget, ce, abs_max, next, s2, (n - 1) as nat, r);
                            },
                        },
                    },
                },
            },
        }
    }
}

/// A successful max long is the budget itself, the absolute boundary
/// trade (at which the pool was found solvent), or an amount whose own
/// projected solvency is feasible.
pub proof fn lemma_max_long_outcome(s: State, budget: int, ce: int, n: nat, r: int)
    requires
        s_max_long(s, budget, ce, n) == Result::<int, MaxLongError>::Ok(r),
    ensures
        (match s_abs_max(s) {
            Some((amb, ambond)) => r == budget || (r == amb && s_solvency_after_long(
                s,
                amb,
                ambond,
                ce,
            ) is Some) || s_feasible(s, r, ce),
            None => false,
        }),
{
    match s_abs_max(s) {
        None => {},
        Some((amb, ambond)) => {
            match s_solvency_after_long(s, amb, ambond, ce) {
                Some(_) => {},
                None => {
                    match s_max_long_guess(s, amb, ce) {
                        None => {},
                        Some(g) => match s_long_amount(s, g) {
                            None => {},
                            Some(la) => match s_solvency_after_long(s, g, la, ce) {
                                None => {},
                                Some(s0) => {
                                    lemma_newton_ok(s, budget, ce, amb, g, s0, n, r);
                                },
                            },
                        },
                    }
                },
            }
        },
    }
}

/// When the boundary trade is infeasible and the solver still
/// succeeds, the answer lies strictly below the absolute boundary base
/// amount or projects a feasible solvency of its own -- the iteration
/// never lands on the boundary, whose solvency was checked infeasible.
pub proof fn lemma_max_long_below_boundary(
    s: State,
    budget: int,
    ce: int,
    n: nat,
    r: int,
    amb: int,
    ambond: int,
)
    requires
        s_abs_max(s) == Some((amb, ambond)),
        s_solvency_after_long(s, amb, ambond, ce) is None,
        s_max_long(s, budget, ce, n) == Result::<int, MaxLongError>::Ok(r),
    ensures
        r < amb || s_feasible(s, r, ce),
{
    match s_max_long_guess(s, amb, ce) {
        None => {},
        Some(g) => match s_long_amount(s, g) {
            None => {},
            Some(la) => match s_solvency_after_long(s, g, la, ce) {
                None => {},
                Some(s0) => {
                    lemma_newton_ok(s, budget, ce, amb, g, s0, n, r);
                },
            },
        },
    }
}

/// Number of post-trade solvency evaluations the Newton iteration performs.
pub open spec fn s_newton_evals(
    s: State,
    budget: int,
    ce: int,
    abs_max: int,
    guess: int,
    solv: int,
    n: nat,
) -> nat
    decreases n,
{
    if n == 0 || guess >= abs_max || guess >= budget {
        0
    } else {
        match s_solvency_after_long_derivative(s, guess) {
            None => 0,
            Some(d) => match o_div(Some(solv), Some(d)) {
                None => 0,
                Some(step) => match o_add(Some(guess), Some(step)) {
                    None => 0,
                    Some(next) => match s_long_amount(s, next) {
                        None => 0,
                        Some(la) => 1 + (match s_solvency_after_long(s, next, la, ce) {
                            None => 0nat,
                            Some(s2) => s_newton_evals(s, budget, ce, abs_max, next, s2, (n - 1) as nat),
                        }),
                    },
                },
            },
        }
    }
}

/// The Newton iteration never evaluates the projected solvency more
/// often than the configured iteration cap allows.
pub proof fn lemma_newton_evals_bounded(
    s: State,
    budget: int,
    ce: int,
    abs_max: int,
    guess: int,
    solv: int,
    n: nat,
)
    ensures
        s_newton_evals(s, budget, ce, abs_max, guess, solv, n) <= n,
    decreases n,
{
    if n == 0 || guess >= abs_max || guess >= budget {
    } else {
        match s_solvency_after_long_derivative(s, guess) {
            None => {},
            Some(d) => match o_div(Some(solv), Some(d)) {
                None => {},
                Some(step) => match o_add(Some(guess), Some(step)) {
                    None => {},
                    Some(next) => match s_long_amount(s, next) {
                        None => {},
                        Some(la) => match s_solvency_after_long(s, next, la, ce) {
                            None => {},
                            Some(s2) => {
                                lemma_newton_evals_bounded(
                                    s,
                                    budget,
                                    ce,
                                    abs_max,
                                    next,
                                    s2,
                                    (n - 1) as nat,
                                );
                            },
                        },
                    },
                },
            },
        }
    }
}

/// With a zero budget and at least one iteration allowed, a
/// successful max long is exactly zero: the budget binds immediately.
pub proof fn lemma_max_long_zero_budget(s: State, ce: int, n: nat, r: int)
    requires
        n >= 1,
        s_max_long(s, 0, ce, n) == Result::<int, MaxLongError>::Ok(r),
    ensures
        r == 0,
{
    match s_abs_max(s) {
        None => {},
        Some((amb, ambond)) => {
            assert(amb >= 0);
            match s_solvency_after_long(s, amb, ambond, ce) {
                Some(_) => {},
                None => {
                    match s_max_long_guess(s, amb, ce) {
                        None => {},
                        Some(g) => {
                            assert(g >= 0);
                        },
                    }
                },
            }
        },
    }
}

} // verus!
