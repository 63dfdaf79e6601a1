//! Fixed-point trigonometry.
//!
//! The animation curves drive their oscillations with a sine. The library
//! carries its own rational sine approximation so that every curve value is
//! an exact integer function of its inputs: on a half turn the sine is
//! `16 x (pi - x) / (5 pi^2 - 4 x (pi - x))`, which agrees with the real sine
//! at `0`, `pi / 2` and `pi` and stays within about two thousandths of a unit
//! elsewhere; the second half turn is its mirror image. Angles are reduced to
//! one turn before evaluation, so any `i64` angle is accepted.

use crate::fx::{div_trunc, lemma_div_trunc_bound, FX_ONE};
use vstd::arithmetic::div_mod::{
    lemma_add_mod_noop, lemma_div_by_multiple, lemma_div_is_ordered, lemma_div_pos_is_pos,
    lemma_fundamental_div_mod, lemma_fundamental_div_mod_converse_mod, lemma_mod_multiples_basic,
    lemma_mod_twice,
};
use vstd::prelude::*;

verus! {

/// Half a turn, in raw angle steps (micro-radians).
pub const FX_PI: i64 = 3_141_592;

/// A quarter turn. Exactly half of `FX_PI`.
pub const FX_HALF_PI: i64 = 1_570_796;

/// A full turn. Exactly twice `FX_PI`.
pub const FX_TAU: i64 = 6_283_184;

/// An angle reduced to one turn: the Euclidean remainder modulo `FX_TAU`.
pub open spec fn wrap_tau(x: int) -> int {
    x % (FX_TAU as int)
}

/// The rational sine approximation on the first half turn, intended for
/// `0 <= x <= FX_PI`.
pub open spec fn sin_half_spec(x: int) -> int {
    let u = x * (FX_PI - x);
    div_trunc(16 * u * (FX_ONE as int), 5 * (FX_PI as int) * (FX_PI as int) - 4 * u)
}

/// The sine of any fixed-point angle: the angle is reduced to one turn, and
/// the second half turn mirrors the first.
pub open spec fn sin_fx_spec(x: int) -> int {
    let w = wrap_tau(x);
    if w < FX_PI {
        sin_half_spec(w)
    } else {
        -sin_half_spec(w - FX_PI)
    }
}

/// The cosine, defined as the sine a quarter turn ahead.
pub open spec fn cos_fx_spec(x: int) -> int {
    sin_fx_spec(x + FX_HALF_PI)
}

/// On the first half turn the approximation stays between zero and one unit.
pub proof fn lemma_sin_half_bounds(x: int)
    requires
        0 <= x <= FX_PI,
    ensures
        0 <= sin_half_spec(x) <= FX_ONE,
{
    let u = x * (FX_PI - x);
    let num = 16 * u * (FX_ONE as int);
    let den = 5 * (FX_PI as int) * (FX_PI as int) - 4 * u;
    assert(0 <= u && 4 * u <= (FX_PI as int) * (FX_PI as int)) by (nonlinear_arith)
        requires
            0 <= x <= FX_PI,
            u == x * (FX_PI - x),
    {
        assert((FX_PI - 2 * x) * (FX_PI - 2 * x) >= 0);
    }
    assert(den >= 4 * (FX_PI as int) * (FX_PI as int));
    assert(num >= 0) by (nonlinear_arith)
        requires
            u >= 0,
            num == 16 * u * (FX_ONE as int),
    ;
    lemma_div_pos_is_pos(num, den);
    assert(num <= den * (FX_ONE as int)) by (nonlinear_arith)
        requires
            num == 16 * u * (FX_ONE as int),
            den == 5 * (FX_PI as int) * (FX_PI as int) - 4 * u,
            4 * u <= (FX_PI as int) * (FX_PI as int),
            u >= 0,
    ;
    lemma_div_is_ordered(num, den * (FX_ONE as int), den);
    lemma_div_by_multiple(FX_ONE as int, den);
    assert(sin_half_spec(x) == num / den);
}

/// The sine of any angle stays between minus one unit and one unit.
pub proof fn lemma_sin_bounds(x: int)
    ensures
        -FX_ONE <= sin_fx_spec(x) <= FX_ONE,
{
    let w = wrap_tau(x);
    assert(0 <= w < FX_TAU);
    if w < FX_PI {
        lemma_sin_half_bounds(w);
    } else {
        lemma_sin_half_bounds(w - FX_PI);
    }
}

/// On the first half turn — where the animation easings evaluate it — the
/// sine is nonnegative and at most one unit.
pub proof fn lemma_sin_first_half(x: int)
    requires
        0 <= x <= FX_PI,
    ensures
        0 <= sin_fx_spec(x) <= FX_ONE,
{
    vstd::arithmetic::div_mod::lemma_small_mod(x as nat, FX_TAU as nat);
    assert(wrap_tau(x) == x);
    if x < FX_PI {
        lemma_sin_half_bounds(x);
    } else {
        assert(sin_half_spec(0) == div_trunc(0, 5 * (FX_PI as int) * (FX_PI as int)));
    }
}

/// The sine vanishes at zero.
pub proof fn lemma_sin_zero()
    ensures
        sin_fx_spec(0) == 0,
{
    assert(wrap_tau(0) == 0);
    assert(sin_half_spec(0) == div_trunc(0, 5 * (FX_PI as int) * (FX_PI as int)));
}

/// The sine reaches exactly one unit at a quarter turn: the approximation is
/// exact there, not merely close.
pub proof fn lemma_sin_quarter_turn()
    ensures
        sin_fx_spec(FX_HALF_PI as int) == FX_ONE,
{
    let h = FX_HALF_PI as int;
    assert(wrap_tau(h) == h);
    let u = h * (FX_PI - h);
    assert(u == 2467400073616);
    assert(16 * u * (FX_ONE as int) == (5 * (FX_PI as int) * (FX_PI as int) - 4 * u) * (
    FX_ONE as int));
    lemma_div_by_multiple(FX_ONE as int, 5 * (FX_PI as int) * (FX_PI as int) - 4 * u);
    assert(sin_half_spec(h) == FX_ONE);
}

/// Reduces an angle to one turn.
pub fn wrap_angle(x: i64) -> (r: i64)
    ensures
        r == wrap_tau(x as int),
        0 <= r < FX_TAU,
{
    let m: i64 = x % FX_TAU;
    if m < 0 {
        proof {
            let y = -(x as int);
            let t = FX_TAU as int;
            lemma_fundamental_div_mod(y, t);
            lemma_fundamental_div_mod_converse_mod(
                x as int,
                t,
                -(y / t) - 1,
                t - (y % t),
            );
        }
        m + FX_TAU
    } else {
        proof {
            if x < 0 {
                let y = -(x as int);
                let t = FX_TAU as int;
                lemma_fundamental_div_mod(y, t);
                lemma_mod_multiples_basic(-(y / t), t);
            }
        }
        m
    }
}

/// Evaluates the rational sine approximation on the first half turn.
fn sin_half(x: i64) -> (r: i64)
    requires
        0 <= x <= FX_PI,
    ensures
        r == sin_half_spec(x as int),
        0 <= r <= FX_ONE,
{
    proof {
        lemma_sin_half_bounds(x as int);
        assert(0 <= (x as int) * (FX_PI - x) <= (FX_PI as int) * (FX_PI as int))
            by (nonlinear_arith)
            requires
                0 <= x <= FX_PI,
        ;
    }
    let u: i64 = x * (FX_PI - x);
    let den: i64 = 5 * (FX_PI * FX_PI) - 4 * u;
    proof {
        assert(4 * (u as int) <= (FX_PI as int) * (FX_PI as int)) by (nonlinear_arith)
            requires
                0 <= x <= FX_PI,
                u == (x as int) * (FX_PI - x),
        {
            assert((FX_PI - 2 * (x as int)) * (FX_PI - 2 * (x as int)) >= 0);
        }
    }
    let num: i128 = 16 * (u as i128) * (FX_ONE as i128);
    let q: i128 = num / (den as i128);
    q as i64
}

/// The sine of a fixed-point angle, reduced to one turn first.
pub fn sin_fx(x: i64) -> (r: i64)
    ensures
        r == sin_fx_spec(x as int),
        -FX_ONE <= r <= FX_ONE,
{
    let w = wrap_angle(x);
    if w < FX_PI {
        sin_half(w)
    } else {
        let s = sin_half(w - FX_PI);
        -s
    }
}

/// The cosine of a fixed-point angle.
pub fn cos_fx(x: i64) -> (r: i64)
    ensures
        r == cos_fx_spec(x as int),
        -FX_ONE <= r <= FX_ONE,
{
    let w = wrap_angle(x);
    proof {
        let t = FX_TAU as int;
        let h = FX_HALF_PI as int;
        lemma_add_mod_noop(x as int, h, t);
        lemma_mod_twice(x as int, t);
        assert(h % t == h);
        assert(wrap_tau(w + h) == wrap_tau(x + h)) by {
            lemma_add_mod_noop(w as int, h, t);
            lemma_mod_twice(w as int, t);
        }
        lemma_sin_bounds(x as int + h);
    }
    sin_fx(w + FX_HALF_PI)
}

} // verus!
