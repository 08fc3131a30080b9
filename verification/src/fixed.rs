//! An unsigned fixed-point number with eighteen decimal places, together
//! with the exact mathematical model of every operation on it.
//!
//! Every arithmetic step is modeled by a spec-level combinator over
//! `Option<int>`: a present value is the exact real result scaled by
//! `SCALE`, and `None` records that the step left the representable
//! domain (a negative difference, an overflow, or a zero divisor).
//! Callers branch on that absence explicitly; nothing is clamped.

use vstd::arithmetic::div_mod::{
    lemma_div_is_ordered, lemma_fundamental_div_mod, lemma_fundamental_div_mod_converse,
    lemma_mod_bound,
};
use vstd::prelude::*;

verus! {

/// Number of raw units in one whole fixed-point unit: eighteen decimals.
pub const SCALE: u128 = 1_000_000_000_000_000_000;

/// An unsigned fixed-point value: `raw / SCALE` in real terms.
#[derive(Clone, Copy, Debug, PartialEq, Eq, Structural)]
pub struct Fixed {
    pub raw: u128,
}

impl View for Fixed {
    type V = int;

    open spec fn view(&self) -> int {
        self.raw as int
    }
}

/// The mathematical value carried by an optional fixed-point result.
pub open spec fn opt_v(r: Option<Fixed>) -> Option<int> {
    match r {
        Some(f) => Some(f@),
        None => None,
    }
}

/// Whether a mathematical value is representable as a raw `u128`.
pub open spec fn fits(v: int) -> bool {
    0 <= v && v <= u128::MAX
}

/// Exact model of checked fixed-point addition.
pub open spec fn o_add(a: Option<int>, b: Option<int>) -> Option<int> {
    match (a, b) {
        (Some(x), Some(y)) => if fits(x + y) {
            Some(x + y)
        } else {
            None
        },
        _ => None,
    }
}

/// Exact model of checked fixed-point subtraction: absent when negative.
pub open spec fn o_sub(a: Option<int>, b: Option<int>) -> Option<int> {
    match (a, b) {
        (Some(x), Some(y)) => if fits(x - y) {
            Some(x - y)
        } else {
            None
        },
        _ => None,
    }
}

/// Exact model of `a * b / c` rounded toward zero (floor, all values
/// non-negative): absent on a zero divisor or an unrepresentable quotient.
pub open spec fn o_mul_div_down(a: Option<int>, b: Option<int>, c: Option<int>) -> Option<int> {
    match (a, b, c) {
        (Some(x), Some(y), Some(z)) => if z > 0 && fits(x * y / z) {
            Some(x * y / z)
        } else {
            None
        },
        _ => None,
    }
}

/// Exact model of `a * b / c` rounded away from zero (ceiling).
pub open spec fn o_mul_div_up(a: Option<int>, b: Option<int>, c: Option<int>) -> Option<int> {
    match (a, b, c) {
        (Some(x), Some(y), Some(z)) => if z > 0 && fits((x * y + z - 1) / z) {
            Some((x * y + z - 1) / z)
        } else {
            None
        },
        _ => None,
    }
}

/// Fixed-point product, rounded down.
pub open spec fn o_mul(a: Option<int>, b: Option<int>) -> Option<int> {
    o_mul_div_down(a, b, Some(SCALE as int))
}

/// Fixed-point quotient, rounded down.
pub open spec fn o_div(a: Option<int>, b: Option<int>) -> Option<int> {
    o_mul_div_down(a, Some(SCALE as int), b)
}

/// Fixed-point quotient, rounded up.
pub open spec fn o_div_up(a: Option<int>, b: Option<int>) -> Option<int> {
    o_mul_div_up(a, Some(SCALE as int), b)
}

/// What the power routine of the underlying decimal library returns for a
/// pair of raw eighteen-decimal operands: the base raised to the (fractional)
/// exponent, or absence when the computation leaves its domain. The result
/// depends on the operands alone; no shorter statement of it exists.
pub uninterp spec fn pow_of(base: int, exp: int) -> Option<int>;

/// Exact model of the checked fixed-point power, through `pow_of`.
pub open spec fn o_pow(a: Option<int>, b: Option<int>) -> Option<int> {
    match (a, b) {
        (Some(x), Some(y)) => match pow_of(x, y) {
            Some(v) => if fits(v) {
                Some(v)
            } else {
                None
            },
            None => None,
        },
        _ => None,
    }
}

/// Relies on `ethnum::U256`: `checked_mul` on two values lifted from `u128`
/// (never absent, the product always fits 256 bits), `checked_div` (absent
/// exactly on a zero divisor, otherwise the exact floored quotient), and
/// `u128::try_from` (`Ok` exactly when the quotient fits `u128`).
#[verifier::external_body]
fn wide_mul_div(a: u128, b: u128, c: u128) -> (r: Option<u128>)
    ensures
        r == (if c > 0 && fits(a as int * b as int / c as int) {
            Some((a as int * b as int / c as int) as u128)
        } else {
            None::<u128>
        }),
{
    let p = ethnum::U256::new(a).checked_mul(ethnum::U256::new(b))?;
    let q = p.checked_div(ethnum::U256::new(c))?;
    u128::try_from(q).ok()
}

/// Relies on `ethnum::U256`: `checked_mul` (exact 256-bit product) and
/// `checked_rem` (absent exactly on a zero divisor, otherwise the exact
/// remainder, which is below the divisor and so always fits `u128`).
#[verifier::external_body]
fn wide_mul_rem(a: u128, b: u128, c: u128) -> (r: Option<u128>)
    ensures
        r == (if c > 0 {
            Some(((a as int * b as int) % (c as int)) as u128)
        } else {
            None::<u128>
        }),
{
    let p = ethnum::U256::new(a).checked_mul(ethnum::U256::new(b))?;
    let q = p.checked_rem(ethnum::U256::new(c))?;
    u128::try_from(q).ok()
}

/// Relies on `rust_decimal`: `Decimal::try_from_i128_with_scale` reads both
/// operands as eighteen-decimal values, `MathematicalOps::checked_powd`
/// raises the base to the exponent, and `Decimal::checked_mul` with
/// `ToPrimitive::to_u128` move the result back into raw eighteen-decimal
/// units, truncating precision beyond them. The result is a function of the
/// two operands alone; `pow_of` names it.
#[verifier::external_body]
fn wide_pow(a: u128, b: u128) -> (r: Option<u128>)
    ensures
        match r {
            Some(v) => pow_of(a as int, b as int) == Some(v as int),
            None => pow_of(a as int, b as int) is None,
        },
{
    let base = rust_decimal::Decimal::try_from_i128_with_scale(i128::try_from(a).ok()?, 18).ok()?;
    let exp = rust_decimal::Decimal::try_from_i128_with_scale(i128::try_from(b).ok()?, 18).ok()?;
    let p = rust_decimal::MathematicalOps::checked_powd(&base, exp)?;
    let scaled = p.checked_mul(rust_decimal::Decimal::from(SCALE))?;
    rust_decimal::prelude::ToPrimitive::to_u128(&scaled)
}

/// The ceiling of `p / z` in terms of the floor and the remainder.
proof fn lemma_ceil_div(p: int, z: int)
    requires
        0 <= p,
        0 < z,
    ensures
        (p + z - 1) / z == p / z + (if p % z == 0 {
            0int
        } else {
            1int
        }),
{
    let q = p / z;
    let r = p % z;
    lemma_fundamental_div_mod(p, z);
    lemma_mod_bound(p, z);
    assert((q + 1) * z == q * z + z) by (nonlinear_arith);
    if r == 0 {
        lemma_fundamental_div_mod_converse(p + z - 1, z, q, z - 1);
    } else {
        lemma_fundamental_div_mod_converse(p + z - 1, z, q + 1, r - 1);
    }
}

impl Fixed {
    /// Checked addition.
    pub fn plus(self, o: Fixed) -> (r: Option<Fixed>)
        ensures
            opt_v(r) == o_add(Some(self@), Some(o@)),
    {
        if self.raw <= u128::MAX - o.raw {
            Some(Fixed { raw: self.raw + o.raw })
        } else {
            None
        }
    }

    /// Checked subtraction: absent when the difference would be negative.
    pub fn minus(self, o: Fixed) -> (r: Option<Fixed>)
        ensures
            opt_v(r) == o_sub(Some(self@), Some(o@)),
    {
        if self.raw >= o.raw {
            Some(Fixed { raw: self.raw - o.raw })
        } else {
            None
        }
    }

    /// `self * b / c`, rounded down.
    pub fn mul_div_down(self, b: Fixed, c: Fixed) -> (r: Option<Fixed>)
        ensures
            opt_v(r) == o_mul_div_down(Some(self@), Some(b@), Some(c@)),
    {
        match wide_mul_div(self.raw, b.raw, c.raw) {
            Some(q) => Some(Fixed { raw: q }),
            None => None,
        }
    }

    /// `self * b / c`, rounded up.
    pub fn mul_div_up(self, b: Fixed, c: Fixed) -> (r: Option<Fixed>)
        ensures
            opt_v(r) == o_mul_div_up(Some(self@), Some(b@), Some(c@)),
    {
        let q = match wide_mul_div(self.raw, b.raw, c.raw) {
            Some(q) => q,
            None => {
                proof {
                    if c.raw > 0 {
                        let p = self@ * b@;
                        lemma_ceil_div(p, c@);
                    }
                }
                return None;
            },
        };
        let rem = match wide_mul_rem(self.raw, b.raw, c.raw) {
            Some(rem) => rem,
            None => {
                return None;
            },
        };
        proof {
            lemma_ceil_div(self@ * b@, c@);
        }
        if rem == 0 {
            Some(Fixed { raw: q })
        } else if q < u128::MAX {
            Some(Fixed { raw: q + 1 })
        } else {
            None
        }
    }

    /// Fixed-point product, rounded down.
    pub fn mul_down(self, o: Fixed) -> (r: Option<Fixed>)
        ensures
            opt_v(r) == o_mul(Some(self@), Some(o@)),
    {
        self.mul_div_down(o, Fixed { raw: SCALE })
    }

    /// Fixed-point quotient, rounded down.
    pub fn div_down(self, o: Fixed) -> (r: Option<Fixed>)
        ensures
            opt_v(r) == o_div(Some(self@), Some(o@)),
    {
        self.mul_div_down(Fixed { raw: SCALE }, o)
    }

    /// Fixed-point quotient, rounded up.
    pub fn div_up(self, o: Fixed) -> (r: Option<Fixed>)
        ensures
            opt_v(r) == o_div_up(Some(self@), Some(o@)),
    {
        self.mul_div_up(Fixed { raw: SCALE }, o)
    }

    /// Checked fixed-point power with a fractional exponent.
    pub fn pow(self, e: Fixed) -> (r: Option<Fixed>)
        ensures
            opt_v(r) == o_pow(Some(self@), Some(e@)),
    {
        match wide_pow(self.raw, e.raw) {
            Some(v) => Some(Fixed { raw: v }),
            None => None,
        }
    }
}

/// Division with a larger numerator yields a result at least as large;
/// restated here over the checked model for use by the solvency laws.
pub proof fn lemma_o_div_monotone(a1: int, a2: int, b: int)
    requires
        0 <= a1 <= a2,
        0 < b,
    ensures
        a1 * SCALE as int / b <= a2 * SCALE as int / b,
{
    assert(a1 * SCALE as int <= a2 * SCALE as int) by (nonlinear_arith)
        requires
            0 <= a1 <= a2,
    ;
    lemma_div_is_ordered(a1 * SCALE as int, a2 * SCALE as int, b);
}

} // verus!
