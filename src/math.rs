//! Scaled-integer helpers shared by the ledger, fee and delta computations.
use vstd::arithmetic::div_mod::{
    lemma_div_by_multiple, lemma_div_is_ordered, lemma_hoist_over_denominator,
};
use vstd::arithmetic::mul::{lemma_mul_inequality, lemma_mul_is_commutative, lemma_mul_upper_bound};
use vstd::prelude::*;

use crate::errors::DeltaNeutralVaultError;

verus! {

/// `x` as a `u64` when it fits, an overflow error otherwise.
pub open spec fn checked_u64(x: int) -> Result<u64, DeltaNeutralVaultError> {
    if 0 <= x <= u64::MAX {
        Ok(x as u64)
    } else {
        Err(DeltaNeutralVaultError::ArithmeticOverflow)
    }
}

/// Whether `x` fits an `i64`.
pub open spec fn fits_i64(x: int) -> bool {
    i64::MIN <= x <= i64::MAX
}

/// The magnitude of `x`.
pub open spec fn abs(x: int) -> int {
    if x < 0 {
        -x
    } else {
        x
    }
}

/// The smaller of `a` and `b`.
pub open spec fn min(a: int, b: int) -> int {
    if a <= b {
        a
    } else {
        b
    }
}

/// A product of two values, each bounded, is bounded by the product of the bounds.
pub proof fn lemma_mul_bounded(a: int, b: int, a_max: int, b_max: int)
    requires
        0 <= a <= a_max,
        0 <= b <= b_max,
    ensures
        0 <= a * b <= a_max * b_max,
{
    lemma_mul_upper_bound(a, a_max, b, b_max);
    assert(0 <= a * b) by (nonlinear_arith)
        requires
            0 <= a,
            0 <= b,
    ;
}

/// Flooring division is monotone in the dividend.
pub proof fn lemma_div_monotone(x: int, y: int, d: int)
    requires
        x <= y,
        0 < d,
    ensures
        x / d <= y / d,
{
    lemma_div_is_ordered(x, y, d);
}

/// Scaling by a fraction below one, then flooring, never grows a value.
pub proof fn lemma_mul_div_le(x: int, r: int, d: int)
    requires
        0 <= x,
        0 <= r <= d,
        0 < d,
    ensures
        0 <= x * r / d <= x,
{
    lemma_mul_inequality(r, d, x);
    lemma_mul_is_commutative(r, x);
    lemma_mul_is_commutative(d, x);
    lemma_mul_bounded(x, r, x, d);
    lemma_div_monotone(x * r, x * d, d);
    lemma_div_monotone(0, x * r, d);
    lemma_div_by_multiple(x, d);
}

/// `floor(x * y / d)` split along `y == q * d + r`: the multiple of `d` comes out whole.
pub proof fn lemma_mul_div_split(x: int, y: int, d: int, q: int, r: int)
    requires
        0 < d,
        y == q * d + r,
    ensures
        x * y / d == x * q + x * r / d,
{
    assert(x * y == x * r + (x * q) * d) by (nonlinear_arith)
        requires
            y == q * d + r,
    ;
    lemma_hoist_over_denominator(x * r, x * q, d as nat);
}

/// `floor(a * b / c)` computed in 128 bits, where the product cannot overflow.
pub fn mul_div_floor(a: u64, b: u64, c: u64) -> (r: u128)
    requires
        c > 0,
    ensures
        r as int == (a as int) * (b as int) / (c as int),
        r as int <= (a as int) * (b as int),
{
    proof {
        lemma_mul_bounded(a as int, b as int, u64::MAX as int, u64::MAX as int);
        lemma_div_monotone(0, (a as int) * (b as int), c as int);
        assert((a as int) * (b as int) / (c as int) <= (a as int) * (b as int)) by (nonlinear_arith)
            requires
                (a as int) * (b as int) >= 0,
                c >= 1,
        ;
    }
    (a as u128) * (b as u128) / (c as u128)
}

/// The magnitude of a 128-bit signed value other than the smallest.
pub fn abs_i128(x: i128) -> (r: u128)
    requires
        x > i128::MIN,
    ensures
        r as int == abs(x as int),
{
    if x < 0 {
        (-x) as u128
    } else {
        x as u128
    }
}

} // verus!
