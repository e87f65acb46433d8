//! Fixed-point conventions and small arithmetic helpers.
//!
//! Monetary amounts are `i64` values in cents.  Percentages are `i64` values
//! in basis points (hundredths of a percent), so `100` means one percent.
//! Multipliers, confidences and range positions are in hundredths of a unit.
//! Asset quantities are in hundred-millionths of a base unit.

use vstd::prelude::*;
use vstd::arithmetic::div_mod::{lemma_div_is_ordered, lemma_div_multiples_vanish};

verus! {

/// Basis points in one hundred percent: a whole of anything.
pub const BP_WHOLE: i64 = 10_000;

/// Largest monetary amount (in cents) the engine is specified for:
/// one trillion dollars.
pub const MAX_AMOUNT: i64 = 100_000_000_000_000;

/// Largest percentage (in basis points) the engine is specified for:
/// ten thousand percent.
pub const MAX_PERCENT: i64 = 1_000_000;

/// Scale of asset quantities: hundred-millionths of a base unit.
pub const QUANTITY_SCALE: i64 = 100_000_000;

/// Division that rounds toward zero, as the executable `/` does.
pub open spec fn div_trunc(a: int, b: int) -> int
    recommends
        b > 0,
{
    if a >= 0 {
        a / b
    } else {
        -((-a) / b)
    }
}

/// The smaller of two amounts.
pub open spec fn spec_min_i64(a: i64, b: i64) -> i64 {
    if a <= b {
        a
    } else {
        b
    }
}

/// The larger of two amounts.
pub open spec fn spec_max_i64(a: i64, b: i64) -> i64 {
    if a >= b {
        a
    } else {
        b
    }
}

pub fn min_i64(a: i64, b: i64) -> (r: i64)
    ensures
        r == spec_min_i64(a, b),
{
    if a <= b {
        a
    } else {
        b
    }
}

pub fn max_i64(a: i64, b: i64) -> (r: i64)
    ensures
        r == spec_max_i64(a, b),
{
    if a >= b {
        a
    } else {
        b
    }
}

/// Applies a percentage in basis points to a non-negative amount,
/// rounding toward zero.
pub fn apply_bp(amount: i64, bp: i64) -> (r: i64)
    requires
        0 <= amount <= MAX_AMOUNT,
        0 <= bp <= MAX_PERCENT,
    ensures
        r == amount * bp / (BP_WHOLE as int),
        0 <= r <= 10_000_000_000_000_000,
        bp <= BP_WHOLE ==> r <= amount,
{
    proof {
        assert(0 <= amount * bp <= 100_000_000_000_000_000_000) by (nonlinear_arith)
            requires
                0 <= amount <= 100_000_000_000_000,
                0 <= bp <= 1_000_000,
        ;
        lemma_div_is_ordered(amount * bp, 100_000_000_000_000_000_000, 10_000);
        if bp <= 10_000 {
            assert(amount * bp <= amount * 10_000) by (nonlinear_arith)
                requires
                    0 <= amount,
                    0 <= bp <= 10_000,
            ;
            lemma_div_is_ordered(amount * bp, amount * 10_000, 10_000);
            lemma_div_multiples_vanish(amount as int, 10_000);
        }
    }
    let wide: i128 = (amount as i128) * (bp as i128);
    (wide / (BP_WHOLE as i128)) as i64
}

/// Divides a non-negative amount by a positive percentage in basis points:
/// the amount of which `bp` is the given share.
pub fn unapply_bp(amount: i64, bp: i64) -> (r: i64)
    requires
        0 <= amount <= MAX_AMOUNT,
        0 < bp,
    ensures
        r == amount * (BP_WHOLE as int) / (bp as int),
        0 <= r <= 1_000_000_000_000_000_000,
{
    proof {
        assert(0 <= amount * 10_000 <= 1_000_000_000_000_000_000) by (nonlinear_arith)
            requires
                0 <= amount <= 100_000_000_000_000,
        ;
        assert(amount * 10_000 / (bp as int) <= amount * 10_000 / 1) by {
            vstd::arithmetic::div_mod::lemma_div_is_ordered_by_denominator(
                amount * 10_000,
                1,
                bp as int,
            );
        }
    }
    let wide: i128 = (amount as i128) * (BP_WHOLE as i128);
    (wide / (bp as i128)) as i64
}

/// Multiplies two signed values and divides by a positive divisor,
/// rounding toward zero, with the intermediate product kept exact.
pub fn mul_div_trunc(a: i64, b: i64, d: i64) -> (r: i64)
    requires
        0 < d,
        i64::MIN <= div_trunc(a * b, d as int) <= i64::MAX,
    ensures
        r == div_trunc(a * b, d as int),
{
    proof {
        lemma_i64_product_in_i128(a as int, b as int);
    }
    let wide: i128 = (a as i128) * (b as i128);
    (wide / (d as i128)) as i64
}

/// Computes `(a - b) * c / d`, rounding toward zero, with the difference and
/// the product kept exact.
pub fn diff_mul_div_trunc(a: i64, b: i64, c: i64, d: i64) -> (r: i64)
    requires
        0 < d,
        0 <= c,
        i64::MIN <= div_trunc((a - b) * c, d as int) <= i64::MAX,
    ensures
        r == div_trunc((a - b) * c, d as int),
{
    proof {
        lemma_diff_product_in_i128(a - b, c as int);
    }
    let diff: i128 = (a as i128) - (b as i128);
    let wide: i128 = diff * (c as i128);
    (wide / (d as i128)) as i64
}

/// A quotient is bounded by any bound whose product with the divisor bounds
/// the dividend.
pub proof fn lemma_div_trunc_bounded(x: int, d: int, m: int)
    requires
        0 < d,
        0 <= m,
        -(m * d) <= x <= m * d,
    ensures
        -m <= div_trunc(x, d) <= m,
{
    if x >= 0 {
        assert(x / d <= m) by (nonlinear_arith)
            requires
                0 < d,
                0 <= m,
                0 <= x <= m * d,
        ;
        assert(x / d >= 0) by (nonlinear_arith)
            requires
                0 < d,
                0 <= x,
        ;
    } else {
        assert((-x) / d <= m) by (nonlinear_arith)
            requires
                0 < d,
                0 <= m,
                0 <= -x <= m * d,
        ;
        assert((-x) / d >= 0) by (nonlinear_arith)
            requires
                0 < d,
                0 <= -x,
        ;
    }
}

/// Bounds on two factors bound their product.
pub proof fn lemma_product_bound(a: int, b: int, ab: int, bb: int)
    requires
        0 <= ab,
        0 <= bb,
        -ab <= a <= ab,
        -bb <= b <= bb,
    ensures
        -(ab * bb) <= a * b <= ab * bb,
{
    assert(-(ab * bb) <= a * b <= ab * bb) by (nonlinear_arith)
        requires
            0 <= ab,
            0 <= bb,
            -ab <= a <= ab,
            -bb <= b <= bb,
    ;
}

/// The product of a difference of two `i64` values with a non-negative `i64`
/// value fits in an `i128`.
pub proof fn lemma_diff_product_in_i128(a: int, c: int)
    requires
        -0x1_0000_0000_0000_0000 < a < 0x1_0000_0000_0000_0000,
        0 <= c <= i64::MAX,
    ensures
        -(i128::MAX as int) <= a * c <= i128::MAX,
{
    assert(-0x7fff_ffff_ffff_ffff_ffff_ffff_ffff_ffff <= a * c
        <= 0x7fff_ffff_ffff_ffff_ffff_ffff_ffff_ffff) by (nonlinear_arith)
        requires
            -0x1_0000_0000_0000_0000 < a < 0x1_0000_0000_0000_0000,
            0 <= c <= 0x7fff_ffff_ffff_ffff,
    ;
}

/// The product of two values in the `i64` range fits in an `i128`.
pub proof fn lemma_i64_product_in_i128(a: int, b: int)
    requires
        i64::MIN <= a <= i64::MAX,
        i64::MIN <= b <= i64::MAX,
    ensures
        -(i128::MAX as int) <= a * b <= i128::MAX,
{
    assert(-0x7fff_ffff_ffff_ffff_ffff_ffff_ffff_ffff <= a * b
        <= 0x7fff_ffff_ffff_ffff_ffff_ffff_ffff_ffff) by (nonlinear_arith)
        requires
            -0x8000_0000_0000_0000 <= a <= 0x7fff_ffff_ffff_ffff,
            -0x8000_0000_0000_0000 <= b <= 0x7fff_ffff_ffff_ffff,
    ;
}

} // verus!
