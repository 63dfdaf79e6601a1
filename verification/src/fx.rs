//! Fixed-point scalars.
//!
//! Every scalar in this library — seconds, world units, radians — is an `i64`
//! counting millionths of a unit. This module holds the scaling constants,
//! the truncating product and quotient on that representation, and the bound
//! lemmas the rest of the library uses to rule out overflow.

use vstd::arithmetic::div_mod::{
    lemma_div_by_multiple, lemma_div_is_ordered, lemma_div_is_ordered_by_denominator,
    lemma_div_pos_is_pos,
};
use vstd::prelude::*;

verus! {

/// One whole unit: raw values count millionths.
pub const FX_ONE: i64 = 1_000_000;

/// Largest raw magnitude `fx_mul` and `fx_div` accept (one million units).
/// The product of two such values, rescaled by `FX_ONE`, still fits in `i64`.
pub const FX_BOUND: i64 = 1_000_000_000_000;

/// `FX_BOUND * FX_BOUND / FX_ONE`: every result of `fx_mul` and `fx_div`
/// stays within this raw magnitude.
pub const FX_RESULT_BOUND: i64 = 1_000_000_000_000_000_000;

/// Division that rounds toward zero (the rounding of Rust's `/` operator),
/// meant for a positive divisor.
pub open spec fn div_trunc(a: int, b: int) -> int {
    if a >= 0 {
        a / b
    } else {
        -((-a) / b)
    }
}

/// The fixed-point product: `a * b` rescaled back by `FX_ONE`, truncated.
pub open spec fn fx_mul_spec(a: int, b: int) -> int {
    div_trunc(a * b, FX_ONE as int)
}

/// The fixed-point quotient: `a / b` carried to `FX_ONE` resolution, truncated.
pub open spec fn fx_div_spec(a: int, b: int) -> int {
    div_trunc(a * FX_ONE, b)
}

/// Truncating division never leaves the interval that bounds its dividend.
pub proof fn lemma_div_trunc_bound(a: int, b: int, m: int)
    requires
        b > 0,
        0 <= m,
        -m <= a <= m,
    ensures
        -(m / b) <= div_trunc(a, b) <= m / b,
{
    if a >= 0 {
        lemma_div_pos_is_pos(a, b);
        lemma_div_is_ordered(a, m, b);
    } else {
        lemma_div_pos_is_pos(-a, b);
        lemma_div_is_ordered(-a, m, b);
    }
    lemma_div_pos_is_pos(m, b);
}

/// A dividend bounded by `m` and a divisor of at least one keep the truncated
/// quotient bounded by `m` itself.
pub proof fn lemma_div_trunc_coarse_bound(a: int, b: int, m: int)
    requires
        b > 0,
        0 <= m,
        -m <= a <= m,
    ensures
        -m <= div_trunc(a, b) <= m,
{
    lemma_div_trunc_bound(a, b, m);
    lemma_div_is_ordered_by_denominator(m, 1, b);
    assert(m / 1 == m) by (nonlinear_arith);
}

/// The magnitude of a product is bounded by the product of the bounds.
pub proof fn lemma_product_bound(a: int, b: int, ma: int, mb: int)
    by (nonlinear_arith)
    requires
        0 <= ma,
        0 <= mb,
        -ma <= a <= ma,
        -mb <= b <= mb,
    ensures
        -(ma * mb) <= a * b <= ma * mb,
{
}

/// The fixed-point product of values bounded by `ma` and `mb` is bounded by
/// their product rescaled by `FX_ONE`.
pub proof fn lemma_fx_mul_bound(a: int, b: int, ma: int, mb: int)
    requires
        0 <= ma,
        0 <= mb,
        -ma <= a <= ma,
        -mb <= b <= mb,
    ensures
        -(ma * mb / (FX_ONE as int)) <= fx_mul_spec(a, b) <= ma * mb / (FX_ONE as int),
{
    lemma_product_bound(a, b, ma, mb);
    lemma_product_bound(ma, mb, ma, mb);
    lemma_div_trunc_bound(a * b, FX_ONE as int, ma * mb);
}

/// Scaling by a factor of at most one whole unit can only shrink a magnitude:
/// `|fx_mul_spec(a, f)| <= |a|` whenever `|f| <= FX_ONE`.
pub proof fn lemma_fx_mul_unit_factor(a: int, f: int, ma: int)
    requires
        0 <= ma,
        -ma <= a <= ma,
        -FX_ONE <= f <= FX_ONE,
    ensures
        -ma <= fx_mul_spec(a, f) <= ma,
{
    lemma_product_bound(a, f, ma, FX_ONE as int);
    lemma_product_bound(ma, FX_ONE as int, ma, FX_ONE as int);
    lemma_div_trunc_bound(a * f, FX_ONE as int, ma * FX_ONE);
    assert(ma * (FX_ONE as int) / (FX_ONE as int) == ma) by (nonlinear_arith)
        requires
            0 <= ma,
    ;
}

/// The fixed-point product does not depend on the order of its factors.
pub proof fn lemma_fx_mul_comm(a: int, b: int)
    ensures
        fx_mul_spec(a, b) == fx_mul_spec(b, a),
{
    vstd::arithmetic::mul::lemma_mul_is_commutative(a, b);
}

/// The fixed-point product of nonnegative values is nonnegative.
pub proof fn lemma_fx_mul_nonneg(a: int, b: int)
    requires
        0 <= a,
        0 <= b,
    ensures
        0 <= fx_mul_spec(a, b),
{
    vstd::arithmetic::mul::lemma_mul_nonnegative(a, b);
    lemma_div_pos_is_pos(a * b, FX_ONE as int);
}

/// Scaling by exactly one whole unit is the identity.
pub proof fn lemma_fx_mul_one(a: int)
    ensures
        fx_mul_spec(a, FX_ONE as int) == a,
{
    if a >= 0 {
        lemma_div_by_multiple(a, FX_ONE as int);
    } else {
        lemma_div_by_multiple(-a, FX_ONE as int);
        assert((-a) * FX_ONE == -(a * FX_ONE)) by (nonlinear_arith);
    }
}

/// A fraction of a nonnegative numerator over a denominator at least as
/// large stays between zero and one unit.
pub proof fn lemma_fx_div_unit(a: int, b: int)
    requires
        0 <= a <= b,
        0 < b,
    ensures
        0 <= fx_div_spec(a, b) <= FX_ONE,
{
    vstd::arithmetic::mul::lemma_mul_inequality(a, b, FX_ONE as int);
    lemma_div_pos_is_pos(a * FX_ONE, b);
    lemma_div_is_ordered(a * FX_ONE, b * FX_ONE, b);
    lemma_div_by_multiple(FX_ONE as int, b);
    vstd::arithmetic::mul::lemma_mul_is_commutative(b, FX_ONE as int);
}

/// One coordinate of a linear interpolation with a parameter between zero
/// and one unit stays between its two endpoints.
pub proof fn lemma_lerp_bounds(a: int, b: int, e: int)
    requires
        0 <= e <= FX_ONE,
    ensures
        a <= b ==> a <= a + fx_mul_spec(b - a, e) <= b,
        b <= a ==> b <= a + fx_mul_spec(b - a, e) <= a,
{
    let diff = b - a;
    if diff >= 0 {
        vstd::arithmetic::mul::lemma_mul_nonnegative(diff, e);
        lemma_div_pos_is_pos(diff * e, FX_ONE as int);
        lemma_fx_mul_unit_factor(diff, e, diff);
    } else {
        vstd::arithmetic::mul::lemma_mul_nonnegative(-diff, e);
        lemma_div_pos_is_pos((-diff) * e, FX_ONE as int);
        lemma_fx_mul_unit_factor(diff, e, -diff);
        assert((-diff) * e == -(diff * e)) by (nonlinear_arith);
        assert(fx_mul_spec(b - a, e) <= 0);
    }
}

/// Multiplies two fixed-point values, rescaling the product by `FX_ONE`.
pub fn fx_mul(a: i64, b: i64) -> (r: i64)
    requires
        -FX_BOUND <= a <= FX_BOUND,
        -FX_BOUND <= b <= FX_BOUND,
    ensures
        r == fx_mul_spec(a as int, b as int),
        -FX_RESULT_BOUND <= r <= FX_RESULT_BOUND,
{
    proof {
        lemma_product_bound(a as int, b as int, FX_BOUND as int, FX_BOUND as int);
        lemma_fx_mul_bound(a as int, b as int, FX_BOUND as int, FX_BOUND as int);
    }
    let p: i128 = (a as i128) * (b as i128);
    let q: i128 = p / (FX_ONE as i128);
    q as i64
}

/// Divides two fixed-point values, carrying the quotient to `FX_ONE`
/// resolution. The divisor must be positive.
pub fn fx_div(a: i64, b: i64) -> (r: i64)
    requires
        -FX_BOUND <= a <= FX_BOUND,
        0 < b,
    ensures
        r == fx_div_spec(a as int, b as int),
        -FX_RESULT_BOUND <= r <= FX_RESULT_BOUND,
{
    proof {
        lemma_product_bound(a as int, FX_ONE as int, FX_BOUND as int, FX_ONE as int);
        lemma_div_trunc_coarse_bound((a as int) * (FX_ONE as int), b as int, (FX_BOUND as int) * (FX_ONE as int));
    }
    let n: i128 = (a as i128) * (FX_ONE as i128);
    let q: i128 = n / (b as i128);
    q as i64
}

} // verus!
