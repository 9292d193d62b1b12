//! Fixed-point arithmetic.
//!
//! An `i64` carries a real value scaled by [`SCALE`]: `1_000_000` stands for
//! 1.0. Products are divided back by `SCALE` with truncation toward zero,
//! which is the rounding that hardware integer division performs on
//! magnitudes.

use vstd::prelude::*;
use vstd::arithmetic::div_mod::lemma_div_is_ordered;
use vstd::arithmetic::div_mod::lemma_div_nonincreasing;

verus! {

/// Number of fixed-point units in 1.0 (one world unit, or one radian).
pub const SCALE: i64 = 1_000_000;

/// Largest magnitude accepted for the coordinate-like operand of [`fx_mul`].
pub const COORD_LIMIT: i64 = 1_000_000_000_000;

/// Largest magnitude accepted for the factor operand of [`fx_mul`]; large
/// enough for every unit-circle sample and for [`PI_FX`].
pub const FACTOR_LIMIT: i64 = 4_000_000;

/// The closest fixed-point value to pi.
pub const PI_FX: i64 = 3_141_593;

/// The closest fixed-point value to sqrt(3)/2, the height of an equilateral
/// triangle of unit side.
pub const SQRT3_HALF_FX: i64 = 866_025;

/// Integer division truncating toward zero, the semantics of hardware
/// division on signed values.
pub open spec fn div_trunc(a: int, b: int) -> int
    recommends
        b > 0,
{
    if a >= 0 {
        a / b
    } else {
        -((-a) / b)
    }
}

/// The fixed-point product of `a` and `b`: `(a * b) / SCALE`, truncated
/// toward zero.
pub open spec fn mul_scaled(a: int, b: int) -> int {
    div_trunc(a * b, SCALE as int)
}

/// `v` forced into the interval `[lo, hi]`.
pub open spec fn clamp_spec(v: int, lo: int, hi: int) -> int
    recommends
        lo <= hi,
{
    if v < lo {
        lo
    } else if v > hi {
        hi
    } else {
        v
    }
}

/// The magnitude of a truncated quotient is bounded by the quotient of a
/// bound on the dividend: `|a| <= m` implies `|div_trunc(a, b)| <= m / b`.
pub proof fn lemma_div_trunc_bound(a: int, b: int, m: int)
    requires
        b > 0,
        0 <= m,
        -m <= a <= m,
    ensures
        -(m / b) <= div_trunc(a, b) <= m / b,
{
    if a >= 0 {
        lemma_div_is_ordered(0, a, b);
        lemma_div_is_ordered(a, m, b);
    } else {
        lemma_div_is_ordered(0, -a, b);
        lemma_div_is_ordered(-a, m, b);
    }
}

/// The product `a * b` stays within `ca * cb` when the factors are bounded
/// in magnitude by `ca` and `cb`.
pub proof fn lemma_mul_magnitude(a: int, b: int, ca: int, cb: int)
    requires
        0 <= ca,
        0 <= cb,
        -ca <= a <= ca,
        -cb <= b <= cb,
    ensures
        -(ca * cb) <= a * b <= ca * cb,
{
    assert(-(ca * cb) <= a * b <= ca * cb) by (nonlinear_arith)
        requires
            0 <= ca,
            0 <= cb,
            -ca <= a <= ca,
            -cb <= b <= cb,
    ;
}

/// A fixed-point product with a factor of at most 1.0 in magnitude never
/// grows the other operand: `|b| <= SCALE` gives `|mul_scaled(a, b)| <= ca`
/// whenever `|a| <= ca`.
pub proof fn lemma_mul_scaled_unit(a: int, b: int, ca: int)
    requires
        0 <= ca,
        -ca <= a <= ca,
        -(SCALE as int) <= b <= SCALE as int,
    ensures
        -ca <= mul_scaled(a, b) <= ca,
{
    lemma_mul_magnitude(a, b, ca, SCALE as int);
    lemma_div_trunc_bound(a * b, SCALE as int, ca * (SCALE as int));
    assert(ca * (SCALE as int) / (SCALE as int) == ca) by (nonlinear_arith)
        requires
            0 <= ca,
    ;
}

/// Fixed-point multiply: `(a * b) / SCALE`, truncated toward zero.
pub fn fx_mul(a: i64, b: i64) -> (r: i64)
    requires
        -COORD_LIMIT <= a <= COORD_LIMIT,
        -FACTOR_LIMIT <= b <= FACTOR_LIMIT,
    ensures
        r == mul_scaled(a as int, b as int),
{
    proof {
        lemma_mul_magnitude(a as int, b as int, COORD_LIMIT as int, FACTOR_LIMIT as int);
    }
    let p: i64 = a * b;
    if p >= 0 {
        proof {
            lemma_div_is_ordered(p as int, 4_000_000_000_000_000_000, SCALE as int);
        }
        ((p as u64) / (SCALE as u64)) as i64
    } else {
        proof {
            lemma_div_is_ordered(-(p as int), 4_000_000_000_000_000_000, SCALE as int);
        }
        let m: u64 = ((-p) as u64) / (SCALE as u64);
        -(m as i64)
    }
}

/// Division of a fixed-point value by a plain positive integer, truncated
/// toward zero.
pub fn fx_div_int(a: i64, b: i64) -> (r: i64)
    requires
        b > 0,
        a > i64::MIN,
    ensures
        r == div_trunc(a as int, b as int),
{
    if a >= 0 {
        proof {
            lemma_div_nonincreasing(a as int, b as int);
        }
        ((a as u64) / (b as u64)) as i64
    } else {
        proof {
            lemma_div_nonincreasing(-(a as int), b as int);
        }
        let m: u64 = ((-a) as u64) / (b as u64);
        -(m as i64)
    }
}

/// Fixed-point product of two arbitrary values, kept in a wide integer so
/// that no input can overflow it.
pub fn fx_mul_wide(a: i64, b: i64) -> (r: i128)
    ensures
        r == mul_scaled(a as int, b as int),
        -0x4000_0000_0000_0000_0000_0000_0000_0000 <= r
            <= 0x4000_0000_0000_0000_0000_0000_0000_0000,
{
    proof {
        lemma_div_nonincreasing(0x4000_0000_0000_0000_0000_0000_0000_0000, SCALE as int);
    }
    proof {
        lemma_mul_magnitude(
            a as int,
            b as int,
            0x8000_0000_0000_0000,
            0x8000_0000_0000_0000,
        );
    }
    let p: i128 = (a as i128) * (b as i128);
    if p >= 0 {
        proof {
            lemma_div_is_ordered(
                p as int,
                0x4000_0000_0000_0000_0000_0000_0000_0000,
                SCALE as int,
            );
        }
        ((p as u128) / (SCALE as u128)) as i128
    } else {
        proof {
            lemma_div_is_ordered(
                -(p as int),
                0x4000_0000_0000_0000_0000_0000_0000_0000,
                SCALE as int,
            );
        }
        let m: u128 = ((-p) as u128) / (SCALE as u128);
        -(m as i128)
    }
}

/// Fixed-point product of an arbitrary value with a factor between 0 and
/// 1.0: the result never grows past the value, so it fits the narrow type.
pub fn fx_mul_unit(a: i64, b: i64) -> (r: i64)
    requires
        0 <= b <= SCALE,
    ensures
        r == mul_scaled(a as int, b as int),
{
    proof {
        lemma_mul_magnitude(a as int, b as int, 0x8000_0000_0000_0000, SCALE as int);
        lemma_div_trunc_bound(
            (a as int) * (b as int),
            SCALE as int,
            0x8000_0000_0000_0000 * (SCALE as int),
        );
        assert(0x8000_0000_0000_0000 * (SCALE as int) / (SCALE as int) == 0x8000_0000_0000_0000)
            by (nonlinear_arith);
        if a as int * b as int >= 0 {
            assert(a as int * b as int <= 0x7fff_ffff_ffff_ffff * (SCALE as int))
                by (nonlinear_arith)
                requires
                    a <= 0x7fff_ffff_ffff_ffff,
                    0 <= b <= 1_000_000,
                    a as int * b as int >= 0,
            ;
            lemma_div_is_ordered(
                a as int * b as int,
                0x7fff_ffff_ffff_ffff * (SCALE as int),
                SCALE as int,
            );
            assert(0x7fff_ffff_ffff_ffff * (SCALE as int) / (SCALE as int)
                == 0x7fff_ffff_ffff_ffff) by (nonlinear_arith);
        }
    }
    let wide: i128 = fx_mul_wide(a, b);
    wide as i64
}

/// Converts an angle in fixed-point degrees to fixed-point radians:
/// `degrees * pi / 180`, with [`PI_FX`] standing for pi.
pub fn degrees_to_radians(degrees: i64) -> (r: i64)
    requires
        -COORD_LIMIT <= degrees <= COORD_LIMIT,
    ensures
        r == div_trunc(mul_scaled(degrees as int, PI_FX as int), 180),
{
    let scaled: i64 = fx_mul(degrees, PI_FX);
    proof {
        lemma_mul_magnitude(
            degrees as int,
            PI_FX as int,
            COORD_LIMIT as int,
            FACTOR_LIMIT as int,
        );
        lemma_div_trunc_bound(
            (degrees as int) * (PI_FX as int),
            SCALE as int,
            (COORD_LIMIT as int) * (FACTOR_LIMIT as int),
        );
    }
    fx_div_int(scaled, 180)
}

} // verus!
