//! Checked arithmetic over 64-bit magnitudes with an explicit rounding mode.
//!
//! Every ratio `a * b / c` is formed from a 128-bit product, so the only way it
//! can fail is a quotient that does not fit back into 64 bits.
use vstd::arithmetic::div_mod::{lemma_fundamental_div_mod, lemma_mod_bound};
use vstd::prelude::*;

use crate::error::{VaultError, VaultResult};

verus! {

/// `x` as a 64-bit amount, or `MathOverflow` where it is out of range.
pub open spec fn fit_u64(x: int) -> VaultResult<u64> {
    if 0 <= x && x <= u64::MAX {
        Ok(x as u64)
    } else {
        Err(VaultError::MathOverflow)
    }
}

/// `⌈n / d⌉` for `n >= 0`, `d > 0`.
pub open spec fn ceil_div(n: int, d: int) -> int {
    (n + d - 1) / d
}

/// The quotient `n / d` is the largest multiple of `d` not above `n`.
pub proof fn lemma_floor_div_bounds(n: int, d: int)
    requires
        n >= 0,
        d > 0,
    ensures
        0 <= n / d,
        (n / d) * d <= n,
        n < (n / d) * d + d,
{
    lemma_fundamental_div_mod(n, d);
    lemma_mod_bound(n, d);
    assert((n / d) * d == d * (n / d)) by (nonlinear_arith);
    assert(0 <= n / d) by (nonlinear_arith)
        requires
            n == d * (n / d) + n % d,
            0 <= n % d < d,
            n >= 0,
            d > 0,
    ;
}

/// `⌈n / d⌉` is the smallest multiple of `d` not below `n`.
pub proof fn lemma_ceil_div_bounds(n: int, d: int)
    requires
        n >= 0,
        d > 0,
    ensures
        0 <= ceil_div(n, d),
        n <= ceil_div(n, d) * d,
        ceil_div(n, d) * d < n + d,
{
    lemma_floor_div_bounds(n + d - 1, d);
}

/// The product of two 64-bit values fits in 128 bits.
proof fn lemma_product_fits(a: u64, b: u64)
    ensures
        0 <= a * b <= u64::MAX * u64::MAX,
        u64::MAX * u64::MAX + u64::MAX <= u128::MAX,
{
    assert(0 <= a * b <= u64::MAX * u64::MAX) by (nonlinear_arith);
}

/// `⌊a * b / c⌋`, failing with `MathOverflow` where it exceeds 64 bits.
pub fn mul_div_floor(a: u64, b: u64, c: u64) -> (r: VaultResult<u64>)
    requires
        c > 0,
    ensures
        r == fit_u64(a * b / (c as int)),
{
    proof {
        lemma_product_fits(a, b);
        lemma_floor_div_bounds(a * b, c as int);
    }
    let p: u128 = (a as u128) * (b as u128);
    let q: u128 = p / (c as u128);
    if q > u64::MAX as u128 {
        Err(VaultError::MathOverflow)
    } else {
        Ok(q as u64)
    }
}

/// `⌈a * b / c⌉`, failing with `MathOverflow` where it exceeds 64 bits.
pub fn mul_div_ceil(a: u64, b: u64, c: u64) -> (r: VaultResult<u64>)
    requires
        c > 0,
    ensures
        r == fit_u64(ceil_div(a * b, c as int)),
{
    proof {
        lemma_product_fits(a, b);
        lemma_ceil_div_bounds(a * b, c as int);
    }
    let p: u128 = (a as u128) * (b as u128);
    let q: u128 = (p + (c as u128 - 1)) / (c as u128);
    if q > u64::MAX as u128 {
        Err(VaultError::MathOverflow)
    } else {
        Ok(q as u64)
    }
}

/// `a + b`, failing with `MathOverflow` where it exceeds 64 bits.
pub fn add_amounts(a: u64, b: u64) -> (r: VaultResult<u64>)
    ensures
        r == fit_u64(a + b),
{
    match a.checked_add(b) {
        Some(s) => Ok(s),
        None => Err(VaultError::MathOverflow),
    }
}

/// `a - b`, failing with `MathOverflow` where it is negative.
pub fn sub_amounts(a: u64, b: u64) -> (r: VaultResult<u64>)
    ensures
        r == fit_u64(a - b),
{
    match a.checked_sub(b) {
        Some(s) => Ok(s),
        None => Err(VaultError::MathOverflow),
    }
}

} // verus!
