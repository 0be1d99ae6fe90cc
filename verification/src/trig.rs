//! Exact integer division helpers and the kernel's fixed-point cosine.
//!
//! The cosine here is the kernel's own deterministic approximation: a
//! truncated Taylor polynomial evaluated in exact integer arithmetic after
//! reducing the argument to a quarter turn. Its defining formula is a spec
//! function, and the executable code returns exactly that formula's value,
//! so every caller computes bit-identical results.

use vstd::prelude::*;
use vstd::arithmetic::div_mod::{
    lemma_div_is_ordered, lemma_div_nonincreasing, lemma_div_pos_is_pos, lemma_mod_bound,
};

use crate::math::{HALF_PI_MICROS, PI_MICROS, TAU_MICROS};

verus! {

/// The quotient of a division by a positive divisor lies between the
/// dividend and zero.
pub proof fn lemma_floor_div_bounds(a: int, b: int)
    requires
        b >= 1,
    ensures
        a >= 0 ==> 0 <= a / b <= a,
        a < 0 ==> a <= a / b <= 0,
{
    vstd::arithmetic::div_mod::lemma_div_of0(b);
    vstd::arithmetic::div_mod::lemma_fundamental_div_mod(a, b);
    lemma_mod_bound(a, b);
    if a >= 0 {
        lemma_div_pos_is_pos(a, b);
        lemma_div_nonincreasing(a, b);
    } else {
        lemma_div_is_ordered(a, 0, b);
        let q = a / b;
        let r = a % b;
        assert(q >= a) by (nonlinear_arith)
            requires
                a == b * q + r,
                0 <= r < b,
                b >= 1,
                a < 0,
                q <= 0,
        {}
    }
}

/// Floor division (quotient rounded toward negative infinity) of `a` by a
/// positive `b`; equals spec-level `/` on `int`.
pub fn floor_div(a: i128, b: i128) -> (r: i128)
    requires
        b > 0,
    ensures
        r == a as int / b as int,
{
    proof {
        lemma_floor_div_bounds(a as int, b as int);
    }
    match a.checked_div_euclid(b) {
        Some(q) => q,
        None => {
            proof {
                assert(false);
            }
            0
        }
    }
}

/// What `ceil_div` returns: the quotient rounded toward positive infinity.
pub open spec fn spec_ceil_div(a: int, b: int) -> int {
    -((-a) / b)
}

/// Ceiling division of `a` by a positive `b`.
pub fn ceil_div(a: i128, b: i128) -> (r: i128)
    requires
        b > 0,
        a > i128::MIN,
    ensures
        r == spec_ceil_div(a as int, b as int),
{
    let q = floor_div(-a, b);
    proof {
        lemma_floor_div_bounds(-a as int, b as int);
    }
    -q
}

/// The kernel's cosine polynomial on a quarter turn, in micro-units.
///
/// This is the defining formula: a degree-ten Taylor expansion of cosine,
/// evaluated left to right in exact integer arithmetic with truncating
/// division at each step.
pub open spec fn spec_cos_quarter(z: int) -> int {
    let z2 = z * z / 1_000_000;
    let z4 = z2 * z2 / 1_000_000;
    let z6 = z4 * z2 / 1_000_000;
    let z8 = z6 * z2 / 1_000_000;
    let z10 = z8 * z2 / 1_000_000;
    1_000_000 - z2 / 2 + z4 / 24 - z6 / 720 + z8 / 40320 - z10 / 3_628_800
}

/// The kernel's cosine of an angle in micro-radians: the argument is reduced
/// to the first quarter turn, then `spec_cos_quarter` is applied.
pub open spec fn spec_cos(x: int) -> int {
    let y = x % (TAU_MICROS as int);
    let half = if y <= PI_MICROS as int {
        y
    } else {
        TAU_MICROS as int - y
    };
    if half <= HALF_PI_MICROS as int {
        spec_cos_quarter(half)
    } else {
        -spec_cos_quarter(PI_MICROS as int - half)
    }
}

/// The kernel's sine: cosine shifted by a quarter turn.
pub open spec fn spec_sin(x: int) -> int {
    spec_cos(x - HALF_PI_MICROS as int)
}

/// Bound within which every cosine value stays; generous, but exact
/// determinism is carried by the equality with `spec_cos`, not by this range.
pub const COS_BOUND: i64 = 2_000_000;

fn cos_quarter(z: i64) -> (r: i64)
    requires
        0 <= z <= 1_570_797,
    ensures
        r as int == spec_cos_quarter(z as int),
        -COS_BOUND <= r <= COS_BOUND,
{
    let zi = z as i128;
    proof {
        assert(zi * zi <= 1_570_797 * 1_570_797) by (nonlinear_arith)
            requires
                0 <= zi <= 1_570_797,
        {}
    }
    let z2 = floor_div(zi * zi, 1_000_000);
    proof {
        lemma_div_pos_is_pos(zi * zi, 1_000_000);
        lemma_div_is_ordered(zi * zi, (1_570_797 * 1_570_797) as int, 1_000_000);
        assert(z2 <= 2_467_404);
        assert(z2 * z2 <= 2_467_404 * 2_467_404) by (nonlinear_arith)
            requires
                0 <= z2 <= 2_467_404,
        {}
    }
    let z4 = floor_div(z2 * z2, 1_000_000);
    proof {
        lemma_div_pos_is_pos(z2 * z2, 1_000_000);
        lemma_div_is_ordered(z2 * z2, (2_467_404 * 2_467_404) as int, 1_000_000);
        assert(z4 <= 6_088_083);
        assert(z4 * z2 <= 6_088_083 * 2_467_404) by (nonlinear_arith)
            requires
                0 <= z4 <= 6_088_083,
                0 <= z2 <= 2_467_404,
        {}
    }
    let z6 = floor_div(z4 * z2, 1_000_000);
    proof {
        lemma_div_pos_is_pos(z4 * z2, 1_000_000);
        lemma_div_is_ordered(z4 * z2, (6_088_083 * 2_467_404) as int, 1_000_000);
        assert(z6 <= 15_021_796);
        assert(z6 * z2 <= 15_021_796 * 2_467_404) by (nonlinear_arith)
            requires
                0 <= z6 <= 15_021_796,
                0 <= z2 <= 2_467_404,
        {}
    }
    let z8 = floor_div(z6 * z2, 1_000_000);
    proof {
        lemma_div_pos_is_pos(z6 * z2, 1_000_000);
        lemma_div_is_ordered(z6 * z2, (15_021_796 * 2_467_404) as int, 1_000_000);
        assert(z8 <= 37_064_840);
        assert(z8 * z2 <= 37_064_840 * 2_467_404) by (nonlinear_arith)
            requires
                0 <= z8 <= 37_064_840,
                0 <= z2 <= 2_467_404,
        {}
    }
    let z10 = floor_div(z8 * z2, 1_000_000);
    proof {
        lemma_div_pos_is_pos(z8 * z2, 1_000_000);
        lemma_div_is_ordered(z8 * z2, (37_064_840 * 2_467_404) as int, 1_000_000);
        assert(z10 <= 91_453_960);
    }
    let t2 = floor_div(z2, 2);
    let t4 = floor_div(z4, 24);
    let t6 = floor_div(z6, 720);
    let t8 = floor_div(z8, 40320);
    let t10 = floor_div(z10, 3_628_800);
    proof {
        lemma_div_pos_is_pos(z2 as int, 2);
        lemma_div_pos_is_pos(z4 as int, 24);
        lemma_div_pos_is_pos(z6 as int, 720);
        lemma_div_pos_is_pos(z8 as int, 40320);
        lemma_div_pos_is_pos(z10 as int, 3_628_800);
        lemma_div_is_ordered(z2 as int, 2_467_404, 2);
        lemma_div_is_ordered(z4 as int, 6_088_083, 24);
        lemma_div_is_ordered(z6 as int, 15_021_796, 720);
        lemma_div_is_ordered(z8 as int, 37_064_840, 40320);
        lemma_div_is_ordered(z10 as int, 91_453_960, 3_628_800);
    }
    let r = 1_000_000 - t2 + t4 - t6 + t8 - t10;
    r as i64
}

/// The kernel's cosine of `x` micro-radians, exactly `spec_cos(x)`.
///
/// Deterministic by construction: the result is a function of the argument
/// alone, so repeated calls agree bit for bit.
pub fn cos_micros(x: i64) -> (r: i64)
    requires
        i64::MIN + 4_000_000 <= x,
    ensures
        r as int == spec_cos(x as int),
        -COS_BOUND <= r <= COS_BOUND,
{
    let y = match x.checked_rem_euclid(TAU_MICROS) {
        Some(y) => y,
        None => {
            proof {
                assert(false);
            }
            0
        }
    };
    proof {
        lemma_mod_bound(x as int, TAU_MICROS as int);
    }
    let half = if y <= PI_MICROS {
        y
    } else {
        TAU_MICROS - y
    };
    if half <= HALF_PI_MICROS {
        cos_quarter(half)
    } else {
        let v = cos_quarter(PI_MICROS - half);
        -v
    }
}

/// The kernel's sine of `x` micro-radians, exactly `spec_sin(x)`.
pub fn sin_micros(x: i64) -> (r: i64)
    requires
        i64::MIN + 8_000_000 <= x,
    ensures
        r as int == spec_sin(x as int),
        -COS_BOUND <= r <= COS_BOUND,
{
    cos_micros(x - HALF_PI_MICROS)
}

/// Integer square root: the greatest `r` with `r * r <= v`.
pub fn isqrt(v: u64) -> (r: u64)
    ensures
        r * r <= v < (r + 1) * (r + 1),
{
    let mut lo: u64 = 0;
    proof {
        assert(((lo + 1) as u128) * ((lo + 1) as u128) <= 0x1_0000_0000_0000_0000u128)
            by (nonlinear_arith)
            requires
                lo <= 0xFFFF_FFFF,
        {}
    }
    while ((lo + 1) as u128) * ((lo + 1) as u128) <= v as u128
        invariant
            lo * lo <= v,
            lo <= 0xFFFF_FFFF,
            ((lo + 1) as u128) * ((lo + 1) as u128) <= 0x1_0000_0000_0000_0000u128,
        decreases v - lo,
    {
        proof {
            assert(lo + 1 <= v) by (nonlinear_arith)
                requires
                    (lo + 1) * (lo + 1) <= v,
            {}
        }
        lo = lo + 1;
        proof {
            assert(lo <= 0xFFFF_FFFF) by (nonlinear_arith)
                requires
                    lo * lo <= v,
                    v <= 0xFFFF_FFFF_FFFF_FFFFu64,
            {}
            assert(((lo + 1) as u128) * ((lo + 1) as u128) <= 0x1_0000_0000_0000_0000u128)
                by (nonlinear_arith)
                requires
                    lo <= 0xFFFF_FFFF,
            {}
        }
    }
    lo
}


/// The quarter-turn polynomial stays within the cosine bound.
pub proof fn lemma_cos_quarter_bound(z: int)
    requires
        0 <= z <= 1_570_797,
    ensures
        -COS_BOUND <= spec_cos_quarter(z) <= COS_BOUND,
{
    let z2 = z * z / 1_000_000;
    assert(0 <= z * z <= 1_570_797 * 1_570_797) by (nonlinear_arith)
        requires
            0 <= z <= 1_570_797,
    {}
    lemma_div_pos_is_pos(z * z, 1_000_000);
    lemma_div_is_ordered(z * z, (1_570_797 * 1_570_797) as int, 1_000_000);
    let z4 = z2 * z2 / 1_000_000;
    assert(0 <= z2 * z2 <= 2_467_404 * 2_467_404) by (nonlinear_arith)
        requires
            0 <= z2 <= 2_467_404,
    {}
    lemma_div_pos_is_pos(z2 * z2, 1_000_000);
    lemma_div_is_ordered(z2 * z2, (2_467_404 * 2_467_404) as int, 1_000_000);
    let z6 = z4 * z2 / 1_000_000;
    assert(0 <= z4 * z2 <= 6_088_083 * 2_467_404) by (nonlinear_arith)
        requires
            0 <= z4 <= 6_088_083,
            0 <= z2 <= 2_467_404,
    {}
    lemma_div_pos_is_pos(z4 * z2, 1_000_000);
    lemma_div_is_ordered(z4 * z2, (6_088_083 * 2_467_404) as int, 1_000_000);
    let z8 = z6 * z2 / 1_000_000;
    assert(0 <= z6 * z2 <= 15_021_796 * 2_467_404) by (nonlinear_arith)
        requires
            0 <= z6 <= 15_021_796,
            0 <= z2 <= 2_467_404,
    {}
    lemma_div_pos_is_pos(z6 * z2, 1_000_000);
    lemma_div_is_ordered(z6 * z2, (15_021_796 * 2_467_404) as int, 1_000_000);
    let z10 = z8 * z2 / 1_000_000;
    assert(0 <= z8 * z2 <= 37_064_840 * 2_467_404) by (nonlinear_arith)
        requires
            0 <= z8 <= 37_064_840,
            0 <= z2 <= 2_467_404,
    {}
    lemma_div_pos_is_pos(z8 * z2, 1_000_000);
    lemma_div_is_ordered(z8 * z2, (37_064_840 * 2_467_404) as int, 1_000_000);
    lemma_div_pos_is_pos(z2, 2);
    lemma_div_pos_is_pos(z4, 24);
    lemma_div_pos_is_pos(z6, 720);
    lemma_div_pos_is_pos(z8, 40320);
    lemma_div_pos_is_pos(z10, 3_628_800);
    lemma_div_is_ordered(z2, 2_467_404, 2);
    lemma_div_is_ordered(z4, 6_088_083, 24);
    lemma_div_is_ordered(z6, 15_021_796, 720);
    lemma_div_is_ordered(z8, 37_064_840, 40320);
    lemma_div_is_ordered(z10, 91_453_960, 3_628_800);
}

/// The kernel's cosine stays within its bound, for every argument.
pub proof fn lemma_spec_cos_bound(x: int)
    ensures
        -COS_BOUND <= spec_cos(x) <= COS_BOUND,
{
    lemma_mod_bound(x, TAU_MICROS as int);
    let y = x % (TAU_MICROS as int);
    let half = if y <= PI_MICROS as int {
        y
    } else {
        TAU_MICROS as int - y
    };
    if half <= HALF_PI_MICROS as int {
        lemma_cos_quarter_bound(half);
    } else {
        lemma_cos_quarter_bound(PI_MICROS as int - half);
    }
}

/// The kernel's sine stays within the same bound.
pub proof fn lemma_spec_sin_bound(x: int)
    ensures
        -COS_BOUND <= spec_sin(x) <= COS_BOUND,
{
    lemma_spec_cos_bound(x - HALF_PI_MICROS as int);
}

} // verus!
