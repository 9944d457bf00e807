//! Arithmetic primitives: checked sums and differences, a widening
//! multiply-then-divide that rounds down, and an exact integer square root.
//!
//! Nothing above this module multiplies two reserve-scale values at native
//! width; every product is formed at twice the operand width here.

use crate::errors::AmmError;
use vstd::prelude::*;

verus! {

/// `floor(a * b / c)` over the unbounded integers. Meaningful for `c > 0`.
pub open spec fn floor_mul_div(a: int, b: int, c: int) -> int {
    (a * b) / c
}

/// The result of [`mul_div_floor`]: the rounded-down quotient when the divisor
/// is nonzero and the quotient fits in 64 bits, an overflow otherwise.
pub open spec fn mul_div_floor_spec(a: u64, b: u64, c: u64) -> Result<u64, AmmError> {
    if c == 0 || floor_mul_div(a as int, b as int, c as int) > u64::MAX {
        Err(AmmError::ArithmeticOverflow)
    } else {
        Ok(floor_mul_div(a as int, b as int, c as int) as u64)
    }
}

/// The result of [`checked_add`].
pub open spec fn checked_add_spec(a: u64, b: u64) -> Result<u64, AmmError> {
    if a + b > u64::MAX {
        Err(AmmError::ArithmeticOverflow)
    } else {
        Ok((a + b) as u64)
    }
}

/// The result of [`checked_sub`].
pub open spec fn checked_sub_spec(a: u64, b: u64) -> Result<u64, AmmError> {
    if a < b {
        Err(AmmError::ArithmeticUnderflow)
    } else {
        Ok((a - b) as u64)
    }
}

/// `r` is the integer square root of `n`, rounded down.
pub open spec fn is_floor_sqrt(n: nat, r: nat) -> bool {
    r * r <= n < (r + 1) * (r + 1)
}

/// The integer square root of `n`, rounded down.
pub open spec fn floor_sqrt(n: nat) -> nat {
    choose|r: nat| is_floor_sqrt(n, r)
}

/// The product of two 64-bit values fits in 128 bits.
pub proof fn lemma_product_fits(a: u64, b: u64)
    ensures
        0 <= a * b <= u128::MAX,
{
    assert(0 <= a * b <= 0xffff_ffff_ffff_ffff * 0xffff_ffff_ffff_ffff) by (nonlinear_arith)
        requires
            0 <= a <= 0xffff_ffff_ffff_ffff,
            0 <= b <= 0xffff_ffff_ffff_ffff,
    ;
}

/// For a positive divisor, the rounded-down quotient `q = n / d` is the one
/// integer with `q * d <= n < (q + 1) * d`.
pub proof fn lemma_floor_div_bounds(n: int, d: int)
    requires
        0 <= n,
        0 < d,
    ensures
        0 <= n / d,
        (n / d) * d <= n,
        n < (n / d + 1) * d,
{
    vstd::arithmetic::div_mod::lemma_fundamental_div_mod(n, d);
    vstd::arithmetic::div_mod::lemma_mod_bound(n, d);
    vstd::arithmetic::div_mod::lemma_div_pos_is_pos(n, d);
    assert((n / d) * d == d * (n / d)) by (nonlinear_arith);
    assert((n / d + 1) * d == d * (n / d) + d) by (nonlinear_arith);
}

/// A quotient cannot exceed `k` when the dividend is at most `k * d`.
pub proof fn lemma_floor_div_at_most(n: int, d: int, k: int)
    requires
        0 <= n,
        0 < d,
        n <= k * d,
    ensures
        n / d <= k,
{
    lemma_floor_div_bounds(n, d);
    assert(n / d <= k) by (nonlinear_arith)
        requires
            (n / d) * d <= n,
            n <= k * d,
            0 < d,
    ;
}

/// A quotient is below `k` when the dividend is below `k * d`.
pub proof fn lemma_floor_div_below(n: int, d: int, k: int)
    requires
        0 <= n,
        0 < d,
        n < k * d,
    ensures
        n / d < k,
{
    lemma_floor_div_bounds(n, d);
    assert(n / d < k) by (nonlinear_arith)
        requires
            (n / d) * d <= n,
            n < k * d,
            0 < d,
    ;
}

/// Only one number is the rounded-down square root of `n`.
pub proof fn lemma_floor_sqrt_unique(n: nat, r: nat)
    requires
        is_floor_sqrt(n, r),
    ensures
        floor_sqrt(n) == r,
{
    let s = floor_sqrt(n);
    assert(is_floor_sqrt(n, s));
    assert(s == r) by (nonlinear_arith)
        requires
            r * r <= n,
            n < (r + 1) * (r + 1),
            s * s <= n,
            n < (s + 1) * (s + 1),
    ;
}

/// Every number has a rounded-down square root.
proof fn lemma_floor_sqrt_exists(n: nat) -> (r: nat)
    ensures
        is_floor_sqrt(n, r),
    decreases n,
{
    if n == 0 {
        assert(is_floor_sqrt(0, 0)) by (nonlinear_arith);
        0
    } else {
        let below = lemma_floor_sqrt_exists((n - 1) as nat);
        if n < (below + 1) * (below + 1) {
            below
        } else {
            assert((below + 1) * (below + 1) < (below + 1 + 1) * (below + 1 + 1))
                by (nonlinear_arith);
            below + 1
        }
    }
}

/// The rounded-down square root is well defined, and is positive for a
/// positive number.
pub proof fn lemma_floor_sqrt_bounds(n: nat)
    ensures
        is_floor_sqrt(n, floor_sqrt(n)),
        n > 0 ==> floor_sqrt(n) > 0,
{
    let witness = lemma_floor_sqrt_exists(n);
    let root = floor_sqrt(n);
    assert(is_floor_sqrt(n, root));
    assert(root == 0 ==> (root + 1) * (root + 1) == 1) by (nonlinear_arith);
}

/// `a + b`, or an overflow where the sum leaves 64 bits.
pub fn checked_add(a: u64, b: u64) -> (r: Result<u64, AmmError>)
    ensures
        r == checked_add_spec(a, b),
{
    match a.checked_add(b) {
        Some(sum) => Ok(sum),
        None => Err(AmmError::ArithmeticOverflow),
    }
}

/// `a - b`, or an underflow where `b` exceeds `a`.
pub fn checked_sub(a: u64, b: u64) -> (r: Result<u64, AmmError>)
    ensures
        r == checked_sub_spec(a, b),
{
    match a.checked_sub(b) {
        Some(difference) => Ok(difference),
        None => Err(AmmError::ArithmeticUnderflow),
    }
}

/// `a * b / c`, rounded down, with the product formed at 128 bits.
///
/// Fails with [`AmmError::ArithmeticOverflow`] exactly when `c` is zero or the
/// quotient does not fit in 64 bits.
pub fn mul_div_floor(a: u64, b: u64, c: u64) -> (r: Result<u64, AmmError>)
    ensures
        r == mul_div_floor_spec(a, b, c),
{
    let wide_a: u128 = a as u128;
    let wide_b: u128 = b as u128;
    let wide_c: u128 = c as u128;
    proof {
        lemma_product_fits(a, b);
    }
    match wide_a.checked_mul(wide_b) {
        None => Err(AmmError::ArithmeticOverflow),
        Some(product) => match product.checked_div(wide_c) {
            None => Err(AmmError::ArithmeticOverflow),
            Some(quotient) => {
                if quotient > u64::MAX as u128 {
                    Err(AmmError::ArithmeticOverflow)
                } else {
                    Ok(quotient as u64)
                }
            },
        },
    }
}

/// The integer square root of `n`, rounded down, found by bisection.
pub fn integer_sqrt(n: u128) -> (r: u64)
    ensures
        r == floor_sqrt(n as nat),
        r * r <= n < (r + 1) * (r + 1),
{
    let mut low: u128 = 0;
    let mut high: u128 = 0x1_0000_0000_0000_0000;
    assert(n < high * high) by (nonlinear_arith)
        requires
            n <= u128::MAX,
            high == 0x1_0000_0000_0000_0000,
    ;
    while high - low > 1
        invariant
            low < high <= 0x1_0000_0000_0000_0000,
            low * low <= n < high * high,
        decreases high - low,
    {
        let middle: u128 = low + (high - low) / 2;
        assert(middle * middle <= u128::MAX) by (nonlinear_arith)
            requires
                0 <= middle <= 0xffff_ffff_ffff_ffff,
        ;
        if middle * middle <= n {
            low = middle;
        } else {
            high = middle;
        }
    }
    proof {
        assert(high == low + 1);
        lemma_floor_sqrt_unique(n as nat, low as nat);
    }
    low as u64
}

} // verus!
