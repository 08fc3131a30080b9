//! The pool snapshot the calculations read: immutable configuration plus a
//! per-call copy of the mutable reserves, and the helpers that fold the
//! signed quantities (the share-reserves adjustment and the checkpoint
//! exposure) into the unsigned fixed-point domain.

use crate::fixed::{fits, o_sub, opt_v, Fixed};
use vstd::prelude::*;

verus! {

/// Immutable pool configuration, set once at pool creation.
#[derive(Clone, Copy, Debug, PartialEq, Eq, Structural)]
pub struct PoolConfig {
    /// Share price at pool creation.
    pub initial_share_price: Fixed,
    /// Safety floor below which share reserves may never fall.
    pub minimum_share_reserves: Fixed,
    /// Curve exponent controlling price sensitivity to trade size.
    pub time_stretch: Fixed,
    /// Fee rate retained by liquidity providers, taken on the curve trade.
    pub curve_fee: Fixed,
    /// Fee rate forwarded to the protocol treasury.
    pub governance_fee: Fixed,
    /// Length of a checkpoint period in seconds; not read by these maths.
    pub checkpoint_duration: u64,
}

/// Snapshot of the pool's mutable state, read-only for a calculation.
#[derive(Clone, Copy, Debug, PartialEq, Eq, Structural)]
pub struct PoolInfo {
    /// Pool liquidity in yield-bearing shares.
    pub share_reserves: Fixed,
    /// Pool liquidity in bonds.
    pub bond_reserves: Fixed,
    /// Signed accounting adjustment subtracted from the share reserves
    /// to form the effective share reserves, in raw eighteen-decimal units.
    pub share_adjustment: i128,
    /// Face value of the longs currently open.
    pub longs_outstanding: Fixed,
    /// The pool's global exposure to open longs.
    pub long_exposure: Fixed,
    /// Current exchange rate between shares and the base asset.
    pub share_price: Fixed,
}

/// A full pool snapshot: configuration plus state.
#[derive(Clone, Copy, Debug, PartialEq, Eq, Structural)]
pub struct State {
    pub config: PoolConfig,
    pub info: PoolInfo,
}

/// The magnitude of the negative part of a signed exposure: checkpoint
/// netting only ever subtracts unnetted negative exposure.
pub open spec fn s_neg_part(v: int) -> int {
    if v < 0 {
        -v
    } else {
        0
    }
}

/// Executable negative part of a signed raw value.
pub fn neg_part(v: i128) -> (r: u128)
    ensures
        r as int == s_neg_part(v as int),
{
    if v < 0 {
        if v == i128::MIN {
            170141183460469231731687303715884105728u128
        } else {
            (-v) as u128
        }
    } else {
        0
    }
}

/// Checked subtraction of a signed raw value from an unsigned one:
/// absent when the difference is negative or does not fit.
pub fn sub_signed(a: Fixed, b: i128) -> (r: Option<Fixed>)
    ensures
        opt_v(r) == o_sub(Some(a@), Some(b as int)),
{
    if b >= 0 {
        let m = b as u128;
        if a.raw >= m {
            Some(Fixed { raw: a.raw - m })
        } else {
            None
        }
    } else {
        let m = neg_part(b);
        if a.raw <= u128::MAX - m {
            assert(fits(a@ - b as int));
            Some(Fixed { raw: a.raw + m })
        } else {
            None
        }
    }
}

} // verus!
