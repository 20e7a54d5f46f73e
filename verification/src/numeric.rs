//! Fixed-point arithmetic helpers: truncating and flooring division,
//! clamping, integer square root, and angle normalization.

use vstd::arithmetic::div_mod::{
    lemma_div_nonincreasing, lemma_div_pos_is_pos, lemma_fundamental_div_mod,
    lemma_fundamental_div_mod_converse,
};
use vstd::prelude::*;

use crate::TAU_MRAD;

verus! {

/// Division rounding toward zero, as the hardware performs it on a
/// positive divisor.
pub open spec fn div_trunc_spec(a: int, b: int) -> int
    recommends
        b > 0,
{
    if a >= 0 {
        a / b
    } else {
        -((-a) / b)
    }
}

/// Clamping into an interval.
pub open spec fn clamp_spec(v: int, lo: int, hi: int) -> int
    recommends
        lo <= hi,
{
    if v < lo {
        lo
    } else if v > hi {
        hi
    } else {
        v
    }
}

/// The result of truncating division never exceeds the dividend in
/// magnitude, and keeps its sign.
pub proof fn lemma_div_trunc_bounds(a: int, b: int)
    requires
        b > 0,
    ensures
        a >= 0 ==> 0 <= div_trunc_spec(a, b) <= a,
        a <= 0 ==> a <= div_trunc_spec(a, b) <= 0,
{
    if a >= 0 {
        lemma_div_pos_is_pos(a, b);
        lemma_div_nonincreasing(a, b);
    } else {
        lemma_div_pos_is_pos(-a, b);
        lemma_div_nonincreasing(-a, b);
    }
}

/// Truncating division of a fixed-point value by a positive divisor.
pub fn div_trunc(a: i64, b: i64) -> (r: i64)
    requires
        b > 0,
        a != i64::MIN,
    ensures
        r == div_trunc_spec(a as int, b as int),
        a >= 0 ==> 0 <= r <= a,
        a <= 0 ==> a <= r <= 0,
{
    proof {
        lemma_div_trunc_bounds(a as int, b as int);
    }
    if a >= 0 {
        a / b
    } else {
        -((-a) / b)
    }
}

/// Truncating division on wide intermediates.
pub fn div_trunc_i128(a: i128, b: i128) -> (r: i128)
    requires
        b > 0,
        a != i128::MIN,
    ensures
        r == div_trunc_spec(a as int, b as int),
        a >= 0 ==> 0 <= r <= a,
        a <= 0 ==> a <= r <= 0,
{
    proof {
        lemma_div_trunc_bounds(a as int, b as int);
    }
    if a >= 0 {
        a / b
    } else {
        -((-a) / b)
    }
}

/// Clamps `v` into `[lo, hi]`.
pub fn clamp_i64(v: i64, lo: i64, hi: i64) -> (r: i64)
    requires
        lo <= hi,
    ensures
        r == clamp_spec(v as int, lo as int, hi as int),
{
    if v < lo {
        lo
    } else if v > hi {
        hi
    } else {
        v
    }
}

/// Clamps a wide intermediate into `[lo, hi]` and narrows it.
pub fn clamp_i128_to_i64(v: i128, lo: i64, hi: i64) -> (r: i64)
    requires
        lo <= hi,
    ensures
        r == clamp_spec(v as int, lo as int, hi as int),
{
    if v < lo as i128 {
        lo
    } else if v > hi as i128 {
        hi
    } else {
        v as i64
    }
}

/// Euclidean division of a negative value, written through the division
/// of its magnitude.
pub proof fn lemma_div_mod_neg(a: int, b: int)
    requires
        b > 0,
        a < 0,
    ensures
        (-a) % b == 0 ==> a % b == 0 && a / b == -((-a) / b),
        (-a) % b != 0 ==> a % b == b - (-a) % b && a / b == -((-a) / b) - 1,
{
    let na = -a;
    let q = na / b;
    let m = na % b;
    lemma_fundamental_div_mod(na, b);
    vstd::arithmetic::div_mod::lemma_mod_pos_bound(na, b);
    if m == 0 {
        assert(a == (-q) * b + 0) by (nonlinear_arith)
            requires
                na == b * q + m,
                a == -na,
                m == 0,
        ;
        lemma_fundamental_div_mod_converse(a, b, -q, 0);
    } else {
        assert(a == (-q - 1) * b + (b - m)) by (nonlinear_arith)
            requires
                na == b * q + m,
                a == -na,
        ;
        lemma_fundamental_div_mod_converse(a, b, -q - 1, b - m);
    }
}

/// The non-negative integer square root, defined as the unique `r >= 0`
/// with `r * r <= n < (r + 1) * (r + 1)`.
pub open spec fn sqrt_floor(n: int) -> int
    recommends
        n >= 0,
{
    choose|r: int| 0 <= r && #[trigger] (r * r) <= n < (r + 1) * (r + 1)
}

/// The defining property pins `sqrt_floor` down uniquely.
pub proof fn lemma_sqrt_floor_unique(n: int, r: int)
    requires
        0 <= r,
        r * r <= n,
        n < (r + 1) * (r + 1),
    ensures
        sqrt_floor(n) == r,
{
    assert(0 <= r && r * r <= n < (r + 1) * (r + 1));
    let s = sqrt_floor(n);
    assert(0 <= s && s * s <= n < (s + 1) * (s + 1));
    if s < r {
        assert((s + 1) * (s + 1) <= r * r) by (nonlinear_arith)
            requires
                0 <= s,
                s < r,
        ;
    }
    if r < s {
        assert((r + 1) * (r + 1) <= s * s) by (nonlinear_arith)
            requires
                0 <= r,
                r < s,
        ;
    }
}

/// Integer square root by bisection.
pub fn isqrt(n: u128) -> (r: u64)
    requires
        n <= 100_000_000_000_000_000_000_000_000,
    ensures
        r as int == sqrt_floor(n as int),
        (r as int) * (r as int) <= n as int,
        (n as int) < (r as int + 1) * (r as int + 1),
        r <= 10_000_000_000_000,
{
    if n == 0 {
        proof {
            lemma_sqrt_floor_unique(n as int, 0);
        }
        return 0;
    }
    let mut lo: u64 = 0;
    let mut hi: u64 = 10_000_000_000_001;
    assert((10_000_000_000_001 as int) * (10_000_000_000_001 as int)
        > 100_000_000_000_000_000_000_000_000);
    while lo + 1 < hi
        invariant
            lo < hi,
            hi <= 10_000_000_000_001,
            (lo as int) * (lo as int) <= n as int,
            (n as int) < (hi as int) * (hi as int),
        decreases hi - lo,
    {
        let mid = lo + (hi - lo) / 2;
        proof {
            assert((mid as int) * (mid as int) <= 100_000_000_000_020_000_000_000_001)
                by (nonlinear_arith)
                requires
                    0 <= mid as int <= 10_000_000_000_001,
            ;
        }
        if (mid as u128) * (mid as u128) <= n {
            lo = mid;
        } else {
            hi = mid;
        }
    }
    proof {
        lemma_sqrt_floor_unique(n as int, lo as int);
    }
    lo
}

/// Normalizes an angle into `[0, TAU_MRAD)`; the result is the Euclidean
/// remainder of the angle by a full turn.
pub fn wrap_angle(a: i64) -> (r: i64)
    requires
        -100_000_000_000 <= a <= 100_000_000_000,
    ensures
        r == a as int % (TAU_MRAD as int),
        0 <= r < TAU_MRAD,
{
    if a >= 0 {
        a % TAU_MRAD
    } else {
        let m = (-a) % TAU_MRAD;
        proof {
            lemma_div_mod_neg(a as int, TAU_MRAD as int);
        }
        if m == 0 {
            0
        } else {
            TAU_MRAD - m
        }
    }
}

/// Per-frame drag: multiplies a velocity component by 19/20, rounding
/// toward zero. The magnitude never grows, and a component within the
/// pet's velocity bound stays within it even after the frame's
/// acceleration is added.
pub fn damp_velocity(v: i64) -> (r: i64)
    requires
        -1_000_000 <= v <= 1_000_000,
    ensures
        r == div_trunc_spec(v as int * 19, 20),
        v >= 0 ==> 0 <= r <= v,
        v <= 0 ==> v <= r <= 0,
        -1200 <= v <= 1200 ==> -1140 <= r <= 1140,
{
    proof {
        let m = if v >= 0 {
            v as int
        } else {
            -(v as int)
        };
        vstd::arithmetic::div_mod::lemma_div_pos_is_pos(m * 19, 20);
        vstd::arithmetic::div_mod::lemma_div_is_ordered(m * 19, m * 20, 20);
        vstd::arithmetic::div_mod::lemma_div_multiples_vanish(m, 20);
        assert((20 * m) / 20 == m);
        assert(m * 20 == 20 * m) by (nonlinear_arith);
        if m <= 1200 {
            vstd::arithmetic::div_mod::lemma_div_is_ordered(m * 19, 22800, 20);
        }
    }
    div_trunc(v * 19, 20)
}

/// Floor division by a positive divisor; agrees with the Euclidean `/` of
/// specifications.
pub fn div_floor(a: i64, b: i64) -> (r: i64)
    requires
        b > 0,
        -1_000_000_000_000_000 <= a <= 1_000_000_000_000_000,
        b <= 1_000_000_000_000_000,
    ensures
        r == a as int / b as int,
{
    if a >= 0 {
        a / b
    } else {
        let q = (-a) / b;
        let m = (-a) % b;
        proof {
            lemma_div_mod_neg(a as int, b as int);
        }
        if m == 0 {
            -q
        } else {
            -q - 1
        }
    }
}

} // verus!
