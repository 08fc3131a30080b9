//! The constant-power bonding-curve primitives the long-side maths read:
//! effective share reserves, spot price, the invariant constant `k`, the
//! trade function along the invariant, and the max-buy boundary (the trade
//! that drives the spot price to exactly one).
//!
//! Each executable function is pinned to a spec-level model built from the
//! checked combinators of [`crate::fixed`]; an absent result records that
//! some step left the representable domain.

use crate::fixed::{o_add, o_div, o_div_up, o_mul, o_pow, o_sub, opt_v, Fixed, SCALE};
use crate::state::{sub_signed, State};
use vstd::prelude::*;

verus! {

/// Effective share reserves: share reserves less the signed adjustment.
pub open spec fn s_effective_share_reserves(s: State) -> Option<int> {
    o_sub(Some(s.info.share_reserves@), Some(s.info.share_adjustment as int))
}

/// One minus the time stretch, the exponent the invariant is stated with.
pub open spec fn s_one_minus_ts(s: State) -> Option<int> {
    o_sub(Some(SCALE as int), Some(s.config.time_stretch@))
}

/// Spot price of one bond in base: `(mu * z_eff / y) ^ t_s`.
pub open spec fn s_spot_price(s: State) -> Option<int> {
    o_pow(
        o_div(
            o_mul(Some(s.config.initial_share_price@), s_effective_share_reserves(s)),
            Some(s.info.bond_reserves@),
        ),
        Some(s.config.time_stretch@),
    )
}

/// The invariant constant: `(c / mu) * (mu * z_eff)^(1 - t_s) + y^(1 - t_s)`.
pub open spec fn s_k(s: State) -> Option<int> {
    o_add(
        o_mul(
            o_div(Some(s.info.share_price@), Some(s.config.initial_share_price@)),
            o_pow(
                o_mul(Some(s.config.initial_share_price@), s_effective_share_reserves(s)),
                s_one_minus_ts(s),
            ),
        ),
        o_pow(Some(s.info.bond_reserves@), s_one_minus_ts(s)),
    )
}

/// Bonds out for shares in along the invariant:
/// `y - (k - (c / mu) * (mu * (z_eff + dz))^(1 - t_s))^(1 / (1 - t_s))`.
pub open spec fn s_out_for_in_shares(s: State, dz: Option<int>) -> Option<int> {
    o_sub(
        Some(s.info.bond_reserves@),
        o_pow(
            o_sub(
                s_k(s),
                o_mul(
                    o_div(Some(s.info.share_price@), Some(s.config.initial_share_price@)),
                    o_pow(
                        o_mul(
                            Some(s.config.initial_share_price@),
                            o_add(s_effective_share_reserves(s), dz),
                        ),
                        s_one_minus_ts(s),
                    ),
                ),
            ),
            o_div_up(Some(SCALE as int), s_one_minus_ts(s)),
        ),
    )
}

/// The level `mu * z` reaches when the spot price is exactly one:
/// `(k / (c / mu + 1))^(1 / (1 - t_s))`; at that point `mu * z == y`.
pub open spec fn s_max_buy_optimal(s: State) -> Option<int> {
    o_pow(
        o_div(
            s_k(s),
            o_add(
                o_div(Some(s.info.share_price@), Some(s.config.initial_share_price@)),
                Some(SCALE as int),
            ),
        ),
        o_div_up(Some(SCALE as int), s_one_minus_ts(s)),
    )
}

/// The max-buy boundary: the share amount in and bond amount out of the
/// trade that drives the spot price to exactly one.
pub open spec fn s_max_buy(s: State) -> Option<(int, int)> {
    match (
        o_sub(o_div(s_max_buy_optimal(s), Some(s.config.initial_share_price@)), s_effective_share_reserves(s)),
        o_sub(Some(s.info.bond_reserves@), s_max_buy_optimal(s)),
    ) {
        (Some(dz), Some(dy)) => Some((dz, dy)),
        _ => None,
    }
}

impl State {
    /// Share reserves net of the signed accounting adjustment.
    pub fn effective_share_reserves(&self) -> (r: Option<Fixed>)
        ensures
            opt_v(r) == s_effective_share_reserves(*self),
    {
        sub_signed(self.info.share_reserves, self.info.share_adjustment)
    }

    /// One minus the time stretch.
    pub fn one_minus_time_stretch(&self) -> (r: Option<Fixed>)
        ensures
            opt_v(r) == s_one_minus_ts(*self),
    {
        Fixed { raw: SCALE }.minus(self.config.time_stretch)
    }

    /// Instantaneous price of one bond in base implied by the reserves.
    pub fn get_spot_price(&self) -> (r: Option<Fixed>)
        ensures
            opt_v(r) == s_spot_price(*self),
    {
        let z_eff = match self.effective_share_reserves() {
            Some(v) => v,
            None => {
                return None;
            },
        };
        let num = match self.config.initial_share_price.mul_down(z_eff) {
            Some(v) => v,
            None => {
                return None;
            },
        };
        let ratio = match num.div_down(self.info.bond_reserves) {
            Some(v) => v,
            None => {
                return None;
            },
        };
        ratio.pow(self.config.time_stretch)
    }

    /// The conserved quantity of the bonding curve's trade function.
    pub fn k(&self) -> (r: Option<Fixed>)
        ensures
            opt_v(r) == s_k(*self),
    {
        let z_eff = match self.effective_share_reserves() {
            Some(v) => v,
            None => {
                return None;
            },
        };
        let one_minus_ts = match self.one_minus_time_stretch() {
            Some(v) => v,
            None => {
                return None;
            },
        };
        let c_over_mu = match self.info.share_price.div_down(self.config.initial_share_price) {
            Some(v) => v,
            None => {
                return None;
            },
        };
        let mu_z = match self.config.initial_share_price.mul_down(z_eff) {
            Some(v) => v,
            None => {
                return None;
            },
        };
        let mu_z_pow = match mu_z.pow(one_minus_ts) {
            Some(v) => v,
            None => {
                return None;
            },
        };
        let lhs = match c_over_mu.mul_down(mu_z_pow) {
            Some(v) => v,
            None => {
                return None;
            },
        };
        let y_pow = match self.info.bond_reserves.pow(one_minus_ts) {
            Some(v) => v,
            None => {
                return None;
            },
        };
        lhs.plus(y_pow)
    }

    /// Bonds received for a given share payment along the invariant.
    pub fn get_out_for_in_shares(&self, dz: Fixed) -> (r: Option<Fixed>)
        ensures
            opt_v(r) == s_out_for_in_shares(*self, Some(dz@)),
    {
        let z_eff = match self.effective_share_reserves() {
            Some(v) => v,
            None => {
                return None;
            },
        };
        let one_minus_ts = match self.one_minus_time_stretch() {
            Some(v) => v,
            None => {
                return None;
            },
        };
        let k = match self.k() {
            Some(v) => v,
            None => {
                return None;
            },
        };
        let c_over_mu = match self.info.share_price.div_down(self.config.initial_share_price) {
            Some(v) => v,
            None => {
                return None;
            },
        };
        let z_new = match z_eff.plus(dz) {
            Some(v) => v,
            None => {
                return None;
            },
        };
        let mu_z = match self.config.initial_share_price.mul_down(z_new) {
            Some(v) => v,
            None => {
                return None;
            },
        };
        let mu_z_pow = match mu_z.pow(one_minus_ts) {
            Some(v) => v,
            None => {
                return None;
            },
        };
        let rhs = match c_over_mu.mul_down(mu_z_pow) {
            Some(v) => v,
            None => {
                return None;
            },
        };
        let base = match k.minus(rhs) {
            Some(v) => v,
            None => {
                return None;
            },
        };
        let exponent = match (Fixed { raw: SCALE }).div_up(one_minus_ts) {
            Some(v) => v,
            None => {
                return None;
            },
        };
        let grown = match base.pow(exponent) {
            Some(v) => v,
            None => {
                return None;
            },
        };
        self.info.bond_reserves.minus(grown)
    }

    /// The trade that drives the spot price to exactly one: the share
    /// amount the pool takes in and the bond amount it pays out.
    pub fn get_max_buy(&self) -> (r: Option<(Fixed, Fixed)>)
        ensures
            (match r {
                Some((dz, dy)) => s_max_buy(*self) == Some((dz@, dy@)),
                None => s_max_buy(*self) is None,
            }),
    {
        let z_eff = match self.effective_share_reserves() {
            Some(v) => v,
            None => {
                return None;
            },
        };
        let one_minus_ts = match self.one_minus_time_stretch() {
            Some(v) => v,
            None => {
                return None;
            },
        };
        let k = match self.k() {
            Some(v) => v,
            None => {
                return None;
            },
        };
        let c_over_mu = match self.info.share_price.div_down(self.config.initial_share_price) {
            Some(v) => v,
            None => {
                return None;
            },
        };
        let denom = match c_over_mu.plus(Fixed { raw: SCALE }) {
            Some(v) => v,
            None => {
                return None;
            },
        };
        let ratio = match k.div_down(denom) {
            Some(v) => v,
            None => {
                return None;
            },
        };
        let exponent = match (Fixed { raw: SCALE }).div_up(one_minus_ts) {
            Some(v) => v,
            None => {
                return None;
            },
        };
        let optimal = match ratio.pow(exponent) {
            Some(v) => v,
            None => {
                return None;
            },
        };
        let z_target = match optimal.div_down(self.config.initial_share_price) {
            Some(v) => v,
            None => {
                return None;
            },
        };
        let dz = match z_target.minus(z_eff) {
            Some(v) => v,
            None => {
                return None;
            },
        };
        let dy = match self.info.bond_reserves.minus(optimal) {
            Some(v) => v,
            None => {
                return None;
            },
        };
        Some((dz, dy))
    }
}

} // verus!
