//! Fixed-point trigonometry on milliradian angles.
//!
//! Sine is defined by a rational half-wave approximation (the classical
//! `16x(pi - x) / (5 pi^2 - 4x(pi - x))` formula) evaluated in integer
//! arithmetic; the executable functions compute the specification exactly.
//! Results are in milli-units: 1000 stands for 1.

use vstd::prelude::*;

use crate::{HALF_PI_MRAD, PI_MRAD, TAU_MRAD};

verus! {

/// Sine over the first half-turn, `x` in `[0, PI_MRAD]`, result in
/// `[0, 1000]`.
pub open spec fn sin_half_spec(x: int) -> int
    recommends
        0 <= x <= PI_MRAD,
{
    let p = x * (PI_MRAD - x);
    (16000 * p) / (5 * PI_MRAD * PI_MRAD - 4 * p)
}

/// Sine of a normalized angle in `[0, TAU_MRAD)`, result in
/// `[-1000, 1000]`.
pub open spec fn sin_mrad_spec(a: int) -> int
    recommends
        0 <= a < TAU_MRAD,
{
    if a < PI_MRAD {
        sin_half_spec(a)
    } else {
        -sin_half_spec(a - PI_MRAD)
    }
}

/// Cosine of a normalized angle, as sine shifted by a quarter turn.
pub open spec fn cos_mrad_spec(a: int) -> int
    recommends
        0 <= a < TAU_MRAD,
{
    sin_mrad_spec((a + HALF_PI_MRAD) % (TAU_MRAD as int))
}

/// Bounds of the half-wave formula.
pub proof fn lemma_sin_half_bounds(x: int)
    requires
        0 <= x <= PI_MRAD,
    ensures
        0 <= x * (PI_MRAD - x) <= 2_468_041,
        0 <= sin_half_spec(x) <= 1000,
{
    let p = x * (PI_MRAD - x);
    assert(0 <= x * (3142 - x) <= 2_468_041) by (nonlinear_arith)
        requires
            0 <= x <= 3142,
    ;
    assert(p == x * (3142 - x));
    let num = 16000 * p;
    let den = 5 * PI_MRAD * PI_MRAD - 4 * p;
    assert(den >= 39_488_656);
    assert(num >= 0);
    assert(num <= den * 1000);
    vstd::arithmetic::div_mod::lemma_div_pos_is_pos(num, den);
    vstd::arithmetic::div_mod::lemma_div_is_ordered(num, den * 1000, den);
    vstd::arithmetic::div_mod::lemma_div_multiples_vanish(1000, den);
    assert((den * 1000) / den == 1000);
    assert(sin_half_spec(x) == num / den);
}

/// Sine over the first half-turn, computed exactly as specified.
pub fn sin_half(x: i64) -> (r: i64)
    requires
        0 <= x <= PI_MRAD,
    ensures
        r == sin_half_spec(x as int),
        0 <= r <= 1000,
{
    proof {
        lemma_sin_half_bounds(x as int);
    }
    let p = x * (PI_MRAD - x);
    let num = 16000 * p;
    let den = 5 * PI_MRAD * PI_MRAD - 4 * p;
    num / den
}

/// Sine of a normalized milliradian angle.
pub fn sin_mrad(a: i64) -> (r: i64)
    requires
        0 <= a < TAU_MRAD,
    ensures
        r == sin_mrad_spec(a as int),
        -1000 <= r <= 1000,
{
    if a < PI_MRAD {
        sin_half(a)
    } else {
        proof {
            lemma_sin_half_bounds(a - PI_MRAD);
        }
        -sin_half(a - PI_MRAD)
    }
}

/// Cosine of a normalized milliradian angle.
pub fn cos_mrad(a: i64) -> (r: i64)
    requires
        0 <= a < TAU_MRAD,
    ensures
        r == cos_mrad_spec(a as int),
        -1000 <= r <= 1000,
{
    let b = a + HALF_PI_MRAD;
    let w = if b >= TAU_MRAD {
        b - TAU_MRAD
    } else {
        b
    };
    proof {
        if b < TAU_MRAD {
            assert(b as int % (TAU_MRAD as int) == b) by {
                vstd::arithmetic::div_mod::lemma_small_mod(b as nat, TAU_MRAD as nat);
            }
        } else {
            vstd::arithmetic::div_mod::lemma_fundamental_div_mod_converse(
                b as int,
                TAU_MRAD as int,
                1,
                b - TAU_MRAD,
            );
        }
    }
    sin_mrad(w)
}

} // verus!
