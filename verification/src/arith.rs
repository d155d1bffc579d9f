//! Saturating `i64` arithmetic and the bounds the ledger rules are written with.

use vstd::prelude::*;

verus! {

/// The `i64` nearest to a mathematical integer.
pub open spec fn nearest(value: int) -> i64 {
    if value > i64::MAX {
        i64::MAX
    } else if value < i64::MIN {
        i64::MIN
    } else {
        value as i64
    }
}

/// The larger of two balances.
pub open spec fn larger(a: i64, b: i64) -> i64 {
    if a >= b {
        a
    } else {
        b
    }
}

/// The smaller of two balances.
pub open spec fn smaller(a: i64, b: i64) -> i64 {
    if a <= b {
        a
    } else {
        b
    }
}

/// `value` moved into `low..=high`.
pub open spec fn within(value: i64, low: i64, high: i64) -> i64 {
    if value < low {
        low
    } else if value > high {
        high
    } else {
        value
    }
}

/// Division that rounds toward zero.
pub open spec fn toward_zero(value: int, divisor: int) -> int {
    if value >= 0 {
        value / divisor
    } else {
        -((-value) / divisor)
    }
}

/// Adds two amounts, stopping at the limits of `i64`.
pub fn sat_add(a: i64, b: i64) -> (sum: i64)
    ensures
        sum == nearest(a + b),
{
    match a.checked_add(b) {
        Some(sum) => sum,
        None => if b > 0 {
            i64::MAX
        } else {
            i64::MIN
        },
    }
}

/// Subtracts `b` from `a`, stopping at the limits of `i64`.
pub fn sat_sub(a: i64, b: i64) -> (difference: i64)
    ensures
        difference == nearest(a - b),
{
    match a.checked_sub(b) {
        Some(difference) => difference,
        None => if b > 0 {
            i64::MIN
        } else {
            i64::MAX
        },
    }
}

/// Multiplies two amounts, stopping at the limits of `i64`.
pub fn sat_mul(a: i64, b: i64) -> (product: i64)
    ensures
        product == nearest(a * b),
{
    match a.checked_mul(b) {
        Some(product) => product,
        None => {
            proof {
                lemma_product_sign(a as int, b as int);
            }
            if (a > 0) == (b > 0) {
                i64::MAX
            } else {
                i64::MIN
            }
        },
    }
}

/// The larger of two amounts.
pub fn max_of(a: i64, b: i64) -> (result: i64)
    ensures
        result == larger(a, b),
{
    if a >= b {
        a
    } else {
        b
    }
}

/// The smaller of two amounts.
pub fn min_of(a: i64, b: i64) -> (result: i64)
    ensures
        result == smaller(a, b),
{
    if a <= b {
        a
    } else {
        b
    }
}

/// Moves an amount into `low..=high`.
pub fn clamp_to(value: i64, low: i64, high: i64) -> (result: i64)
    requires
        low <= high,
    ensures
        result == within(value, low, high),
{
    if value < low {
        low
    } else if value > high {
        high
    } else {
        value
    }
}

/// Divides by a positive divisor, rounding toward zero.
pub fn div_toward_zero(value: i64, divisor: i64) -> (quotient: i64)
    requires
        divisor > 0,
    ensures
        quotient == toward_zero(value as int, divisor as int),
{
    if value >= 0 {
        value / divisor
    } else {
        let magnitude: i128 = -(value as i128);
        let quotient: i128 = magnitude / (divisor as i128);
        assert(0 <= quotient <= magnitude) by (nonlinear_arith)
            requires
                quotient == magnitude / (divisor as i128),
                magnitude >= 0,
                divisor > 0,
        ;
        (-quotient) as i64
    }
}

proof fn lemma_product_sign(a: int, b: int)
    ensures
        a > 0 && b > 0 ==> a * b > 0,
        a <= 0 && b <= 0 ==> a * b >= 0,
        a > 0 && b <= 0 ==> a * b <= 0,
        a <= 0 && b > 0 ==> a * b <= 0,
{
    assert(a > 0 && b > 0 ==> a * b > 0) by (nonlinear_arith);
    assert(a <= 0 && b <= 0 ==> a * b >= 0) by (nonlinear_arith);
    assert(a > 0 && b <= 0 ==> a * b <= 0) by (nonlinear_arith);
    assert(a <= 0 && b > 0 ==> a * b <= 0) by (nonlinear_arith);
}

/// The `i32` nearest to a mathematical integer.
pub open spec fn nearest32(value: int) -> i32 {
    if value > i32::MAX {
        i32::MAX
    } else if value < i32::MIN {
        i32::MIN
    } else {
        value as i32
    }
}

fn close32(value: i64) -> (near: i32)
    ensures
        near == nearest32(value as int),
{
    if value > 2_147_483_647 {
        i32::MAX
    } else if value < -2_147_483_648 {
        i32::MIN
    } else {
        value as i32
    }
}

/// Adds two small amounts, stopping at the limits of `i32`.
pub fn sat_add32(a: i32, b: i32) -> (sum: i32)
    ensures
        sum == nearest32(a + b),
{
    close32(a as i64 + b as i64)
}

/// Multiplies two small amounts, stopping at the limits of `i32`.
pub fn sat_mul32(a: i32, b: i32) -> (product: i32)
    ensures
        product == nearest32(a * b),
{
    assert(-4_611_686_018_427_387_904 <= a * b <= 4_611_686_018_427_387_904) by (nonlinear_arith)
        requires
            -2_147_483_648 <= a <= 2_147_483_647,
            -2_147_483_648 <= b <= 2_147_483_647,
    ;
    close32(a as i64 * b as i64)
}

/// Narrows an amount, stopping at the limits of `i32`.
pub fn sat_narrow(value: i64) -> (near: i32)
    ensures
        near == nearest32(value as int),
{
    close32(value)
}

/// The larger of two small amounts.
pub open spec fn larger32(a: i32, b: i32) -> i32 {
    if a >= b {
        a
    } else {
        b
    }
}

/// Picks the larger of two small amounts.
pub fn max_of32(a: i32, b: i32) -> (larger: i32)
    ensures
        larger == larger32(a, b),
{
    if a >= b {
        a
    } else {
        b
    }
}

} // verus!
