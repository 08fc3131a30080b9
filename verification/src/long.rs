//! Long pricing and the solvency model: the fees a long pays, the bonds it
//! receives, the pool's solvency before and after the trade, and the
//! (negated) derivatives the max-long solver steps with.
//!
//! Every function is pinned to an exact spec-level model; an absent result
//! is the explicit feasibility signal the solver branches on -- a projected
//! solvency that would be negative, a trade at or beyond the curve's domain
//! boundary, or a step that left the representable domain.

use crate::curve::{s_effective_share_reserves, s_k, s_one_minus_ts, s_out_for_in_shares, s_spot_price};
use crate::fixed::{
    lemma_o_div_monotone, o_add, o_div, o_div_up, o_mul, o_mul_div_down, o_pow, o_sub, opt_v,
    Fixed, SCALE,
};
use crate::state::{neg_part, s_neg_part, State};
use vstd::arithmetic::div_mod::lemma_div_pos_is_pos;
use vstd::prelude::*;

verus! {

/// Twice the scale: the factor the exposure grows per bond, in raw units.
pub const TWO_SCALE: u128 = 2_000_000_000_000_000_000;

/// Curve fee on a long: `curve_fee * (1 / p - 1) * x`.
pub open spec fn s_long_curve_fee(s: State, x: int) -> Option<int> {
    o_mul(
        o_mul(
            Some(s.config.curve_fee@),
            o_sub(o_div(Some(SCALE as int), s_spot_price(s)), Some(SCALE as int)),
        ),
        Some(x),
    )
}

/// Governance fee on a long, paid in base: `governance_fee * p * c(x)`.
pub open spec fn s_long_governance_fee(s: State, x: int) -> Option<int> {
    o_mul(o_mul(Some(s.config.governance_fee@), s_spot_price(s)), s_long_curve_fee(s, x))
}

/// Net bonds a long of `x` base opens: the curve trade less the curve fee.
pub open spec fn s_long_amount(s: State, x: int) -> Option<int> {
    o_sub(
        s_out_for_in_shares(s, o_div(Some(x), Some(s.info.share_price@))),
        s_long_curve_fee(s, x),
    )
}

/// The pool's current solvency: `z - e / c - z_min`.
pub open spec fn s_get_solvency(s: State) -> Option<int> {
    o_sub(
        o_sub(
            Some(s.info.share_reserves@),
            o_div(Some(s.info.long_exposure@), Some(s.info.share_price@)),
        ),
        Some(s.config.minimum_share_reserves@),
    )
}

/// Projected share reserves after a long of `x` base pays a governance fee
/// `g`: `z + x / c - g / c`.
pub open spec fn s_reserves_after_long(s: State, x: int, g: int) -> Option<int> {
    o_sub(
        o_add(Some(s.info.share_reserves@), o_div(Some(x), Some(s.info.share_price@))),
        o_div(Some(g), Some(s.info.share_price@)),
    )
}

/// Projected exposure after a long of `x` base and `y` bonds:
/// `e + 2 * y - x + g`.
pub open spec fn s_exposure_after_long(s: State, x: int, y: int, g: int) -> Option<int> {
    o_add(
        o_sub(o_add(Some(s.info.long_exposure@), o_mul(Some(TWO_SCALE as int), Some(y))), Some(x)),
        Some(g),
    )
}

/// Projected solvency after a long of `x` base and `y` bonds, netting the
/// negative part of the checkpoint exposure: present exactly when the
/// projection stays non-negative, and then its exact value.
pub open spec fn s_solvency_after_long(s: State, x: int, y: int, ce: int) -> Option<int> {
    match s_long_governance_fee(s, x) {
        Some(g) => match (
            o_add(
                s_reserves_after_long(s, x, g),
                o_div(Some(s_neg_part(ce)), Some(s.info.share_price@)),
            ),
            o_add(
                o_div(s_exposure_after_long(s, x, y, g), Some(s.info.share_price@)),
                Some(s.config.minimum_share_reserves@),
            ),
        ) {
            (Some(lhs), Some(rhs)) => if lhs >= rhs {
                Some(lhs - rhs)
            } else {
                None
            },
            _ => None,
        },
        None => None,
    }
}

/// Derivative of the net long amount in the base paid: the curve's local
/// slope less the curve fee's constant marginal rate; absent when the trade
/// sits at or beyond the curve's domain boundary (`k < rhs`).
pub open spec fn s_long_amount_derivative(s: State, x: int) -> Option<int> {
    match o_pow(
        o_mul(
            Some(s.config.initial_share_price@),
            o_add(s_effective_share_reserves(s), o_div(Some(x), Some(s.info.share_price@))),
        ),
        Some(s.config.time_stretch@),
    ) {
        Some(ip) => match (
            o_div(Some(SCALE as int), Some(ip)),
            s_k(s),
            o_mul(o_div(Some(s.info.share_price@), Some(s.config.initial_share_price@)), Some(ip)),
        ) {
            (Some(d0), Some(kv), Some(rv)) => if kv < rv {
                None
            } else {
                o_sub(
                    o_mul(
                        Some(d0),
                        o_pow(
                            Some(kv - rv),
                            o_div_up(Some(s.config.time_stretch@), s_one_minus_ts(s)),
                        ),
                    ),
                    o_mul(
                        Some(s.config.curve_fee@),
                        o_sub(o_div(Some(SCALE as int), s_spot_price(s)), Some(SCALE as int)),
                    ),
                )
            },
            _ => None,
        },
        None => None,
    }
}

/// The negation of the derivative of projected solvency in the base paid:
/// `(y'(x) + phi_g * phi_c * (1 - p) - 1) * 2 / c`; solvency only falls as
/// longs open, so the negation stays in the unsigned domain.
pub open spec fn s_solvency_after_long_derivative(s: State, x: int) -> Option<int> {
    match s_long_amount_derivative(s, x) {
        Some(d) => o_mul_div_down(
            o_sub(
                o_add(
                    Some(d),
                    o_mul(
                        o_mul(Some(s.config.governance_fee@), Some(s.config.curve_fee@)),
                        o_sub(Some(SCALE as int), s_spot_price(s)),
                    ),
                ),
                Some(SCALE as int),
            ),
            Some(TWO_SCALE as int),
            Some(s.info.share_price@),
        ),
        None => None,
    }
}

impl State {
    /// Curve fee paid by a long, in bonds.
    pub fn long_curve_fee(&self, base_amount: Fixed) -> (r: Option<Fixed>)
        ensures
            opt_v(r) == s_long_curve_fee(*self, base_amount@),
    {
        let spot = match self.get_spot_price() {
            Some(v) => v,
            None => {
                return None;
            },
        };
        let inv = match (Fixed { raw: SCALE }).div_down(spot) {
            Some(v) => v,
            None => {
                return None;
            },
        };
        let premium = match inv.minus(Fixed { raw: SCALE }) {
            Some(v) => v,
            None => {
                return None;
            },
        };
        let rate = match self.config.curve_fee.mul_down(premium) {
            Some(v) => v,
            None => {
                return None;
            },
        };
        rate.mul_down(base_amount)
    }

    /// Governance fee paid by a long, in base.
    pub fn long_governance_fee(&self, base_amount: Fixed) -> (r: Option<Fixed>)
        ensures
            opt_v(r) == s_long_governance_fee(*self, base_amount@),
    {
        let spot = match self.get_spot_price() {
            Some(v) => v,
            None => {
                return None;
            },
        };
        let rate = match self.config.governance_fee.mul_down(spot) {
            Some(v) => v,
            None => {
                return None;
            },
        };
        let fee = match self.long_curve_fee(base_amount) {
            Some(v) => v,
            None => {
                return None;
            },
        };
        rate.mul_down(fee)
    }

    /// Net bonds opened for a given base payment.
    pub fn get_long_amount(&self, base_amount: Fixed) -> (r: Option<Fixed>)
        ensures
            opt_v(r) == s_long_amount(*self, base_amount@),
    {
        let dz = match base_amount.div_down(self.info.share_price) {
            Some(v) => v,
            None => {
                return None;
            },
        };
        let gross = match self.get_out_for_in_shares(dz) {
            Some(v) => v,
            None => {
                return None;
            },
        };
        let fee = match self.long_curve_fee(base_amount) {
            Some(v) => v,
            None => {
                return None;
            },
        };
        gross.minus(fee)
    }

    /// The pool's current solvency.
    pub fn get_solvency(&self) -> (r: Option<Fixed>)
        ensures
            opt_v(r) == s_get_solvency(*self),
    {
        let e_shares = match self.info.long_exposure.div_down(self.info.share_price) {
            Some(v) => v,
            None => {
                return None;
            },
        };
        let spare = match self.info.share_reserves.minus(e_shares) {
            Some(v) => v,
            None => {
                return None;
            },
        };
        spare.minus(self.config.minimum_share_reserves)
    }

    /// Projected solvency after a long of `base_amount` base for
    /// `bond_amount` bonds, netting the negative checkpoint exposure:
    /// present exactly when the pool would stay solvent.
    pub fn solvency_after_long(&self, base_amount: Fixed, bond_amount: Fixed, checkpoint_exposure: i128) -> (r: Option<
        Fixed,
    >)
        ensures
            opt_v(r) == s_solvency_after_long(*self, base_amount@, bond_amount@, checkpoint_exposure as int),
    {
        let g = match self.long_governance_fee(base_amount) {
            Some(v) => v,
            None => {
                return None;
            },
        };
        let x_shares = match base_amount.div_down(self.info.share_price) {
            Some(v) => v,
            None => {
                return None;
            },
        };
        let g_shares = match g.div_down(self.info.share_price) {
            Some(v) => v,
            None => {
                return None;
            },
        };
        let grown = match self.info.share_reserves.plus(x_shares) {
            Some(v) => v,
            None => {
                return None;
            },
        };
        let reserves = match grown.minus(g_shares) {
            Some(v) => v,
            None => {
                return None;
            },
        };
        let bonds2 = match (Fixed { raw: TWO_SCALE }).mul_down(bond_amount) {
            Some(v) => v,
            None => {
                return None;
            },
        };
        let e_grown = match self.info.long_exposure.plus(bonds2) {
            Some(v) => v,
            None => {
                return None;
            },
        };
        let e_less = match e_grown.minus(base_amount) {
            Some(v) => v,
            None => {
                return None;
            },
        };
        let exposure = match e_less.plus(g) {
            Some(v) => v,
            None => {
                return None;
            },
        };
        let netted = Fixed { raw: neg_part(checkpoint_exposure) };
        let net_shares = match netted.div_down(self.info.share_price) {
            Some(v) => v,
            None => {
                return None;
            },
        };
        let lhs = match reserves.plus(net_shares) {
            Some(v) => v,
            None => {
                return None;
            },
        };
        let e_shares = match exposure.div_down(self.info.share_price) {
            Some(v) => v,
            None => {
                return None;
            },
        };
        let rhs = match e_shares.plus(self.config.minimum_share_reserves) {
            Some(v) => v,
            None => {
                return None;
            },
        };
        if lhs.raw >= rhs.raw {
            Some(Fixed { raw: lhs.raw - rhs.raw })
        } else {
            None
        }
    }

    /// Derivative of the net long amount in the base paid; absent at or
    /// beyond the curve's domain boundary.
    pub fn long_amount_derivative(&self, base_amount: Fixed) -> (r: Option<Fixed>)
        ensures
            opt_v(r) == s_long_amount_derivative(*self, base_amount@),
    {
        let z_eff = match self.effective_share_reserves() {
            Some(v) => v,
            None => {
                return None;
            },
        };
        let share_amount = match base_amount.div_down(self.info.share_price) {
            Some(v) => v,
            None => {
                return None;
            },
        };
        let z_new = match z_eff.plus(share_amount) {
            Some(v) => v,
            None => {
                return None;
            },
        };
        let inner = match self.config.initial_share_price.mul_down(z_new) {
            Some(v) => v,
            None => {
                return None;
            },
        };
        let ip = match inner.pow(self.config.time_stretch) {
            Some(v) => v,
            None => {
                return None;
            },
        };
        let d0 = match (Fixed { raw: SCALE }).div_down(ip) {
            Some(v) => v,
            None => {
                return None;
            },
        };
        let k = match self.k() {
            Some(v) => v,
            None => {
                return None;
            },
        };
        let c_over_mu = match self.info.share_price.div_down(self.config.initial_share_price) {
            Some(v) => v,
            None => {
                return None;
            },
        };
        let rhs = match c_over_mu.mul_down(ip) {
            Some(v) => v,
            None => {
                return None;
            },
        };
        if k.raw < rhs.raw {
            return None;
        }
        let one_minus_ts = match self.one_minus_time_stretch() {
            Some(v) => v,
            None => {
                return None;
            },
        };
        let exponent = match self.config.time_stretch.div_up(one_minus_ts) {
            Some(v) => v,
            None => {
                return None;
            },
        };
        let shrink = match (Fixed { raw: k.raw - rhs.raw }).pow(exponent) {
            Some(v) => v,
            None => {
                return None;
            },
        };
        let d1 = match d0.mul_down(shrink) {
            Some(v) => v,
            None => {
                return None;
            },
        };
        let spot = match self.get_spot_price() {
            Some(v) => v,
            None => {
                return None;
            },
        };
        let inv = match (Fixed { raw: SCALE }).div_down(spot) {
            Some(v) => v,
            None => {
                return None;
            },
        };
        let premium = match inv.minus(Fixed { raw: SCALE }) {
            Some(v) => v,
            None => {
                return None;
            },
        };
        let fee_rate = match self.config.curve_fee.mul_down(premium) {
            Some(v) => v,
            None => {
                return None;
            },
        };
        d1.minus(fee_rate)
    }

    /// The negation of the derivative of projected solvency in the base
    /// paid; propagates the curve-domain absence of the long derivative.
    pub fn solvency_after_long_derivative(&self, base_amount: Fixed) -> (r: Option<Fixed>)
        ensures
            opt_v(r) == s_solvency_after_long_derivative(*self, base_amount@),
    {
        let d = match self.long_amount_derivative(base_amount) {
            Some(v) => v,
            None => {
                return None;
            },
        };
        let spot = match self.get_spot_price() {
            Some(v) => v,
            None => {
                return None;
            },
        };
        let fees = match self.config.governance_fee.mul_down(self.config.curve_fee) {
            Some(v) => v,
            None => {
                return None;
            },
        };
        let discount = match (Fixed { raw: SCALE }).minus(spot) {
            Some(v) => v,
            None => {
                return None;
            },
        };
        let gain = match fees.mul_down(discount) {
            Some(v) => v,
            None => {
                return None;
            },
        };
        let total = match d.plus(gain) {
            Some(v) => v,
            None => {
                return None;
            },
        };
        let net = match total.minus(Fixed { raw: SCALE }) {
            Some(v) => v,
            None => {
                return None;
            },
        };
        net.mul_div_down(Fixed { raw: TWO_SCALE }, self.info.share_price)
    }
}

/// A zero payment carries no curve fee: whenever the fee is defined
/// at zero, it is exactly zero.
pub proof fn lemma_long_curve_fee_zero(s: State)
    ensures
        (match s_long_curve_fee(s, 0) {
            Some(v) => v == 0,
            None => true,
        }),
{
}

/// A zero payment carries no governance fee either.
pub proof fn lemma_long_governance_fee_zero(s: State)
    ensures
        (match s_long_governance_fee(s, 0) {
            Some(v) => v == 0,
            None => true,
        }),
{
    lemma_long_curve_fee_zero(s);
}

/// For fixed reserves, share price and safety minimum, the pool's
/// solvency does not increase as the long exposure grows: a solvency that
/// is defined at the larger exposure is defined at the smaller one, and no
/// larger.
pub proof fn lemma_solvency_monotone_in_exposure(s1: State, s2: State)
    requires
        s1.info.share_reserves == s2.info.share_reserves,
        s1.info.share_price == s2.info.share_price,
        s1.config.minimum_share_reserves == s2.config.minimum_share_reserves,
        s1.info.long_exposure@ <= s2.info.long_exposure@,
    ensures
        (match (s_get_solvency(s1), s_get_solvency(s2)) {
            (Some(a), Some(b)) => a >= b,
            (None, Some(_)) => false,
            _ => true,
        }),
{
    let c = s1.info.share_price@;
    let e1 = s1.info.long_exposure@;
    let e2 = s2.info.long_exposure@;
    if c > 0 {
        lemma_o_div_monotone(e1, e2, c);
        assert(e1 * (SCALE as int) >= 0) by (nonlinear_arith)
            requires
                e1 >= 0,
        ;
        lemma_div_pos_is_pos(e1 * (SCALE as int), c);
    }
}

} // verus!
