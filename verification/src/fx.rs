//! Fixed-point scalars and angle conversion.
//!
//! Every scalar quantity of the canvas model (a coordinate, a radius, an
//! angle in radians, an alpha value, an export quality) is an `i64` counting
//! [`FX_ONE`]ths of a unit. The host converts the backend's floating-point
//! values to this representation at the API boundary, so that the model's
//! arithmetic is exact and provable.

use vstd::prelude::*;

verus! {

/// One unit (1.0) in the fixed-point scale.
pub const FX_ONE: i64 = 1_000_000;

/// Half a unit, used for rounding to the nearest integer.
pub const FX_HALF: i64 = 500_000;

/// The circle constant, in fixed-point units, rounded to the nearest unit.
pub const PI_FX: i64 = 3_141_593;

/// A full turn (360 degrees) in fixed-point degrees.
pub const DEG_360_FX: i64 = 360_000_000;

/// Largest magnitude, in fixed-point radians, that an angle argument of the
/// arc and ellipse operations may have. The bound keeps the conversion to
/// fixed-point degrees inside `i64` (about one hundred million radians, far
/// past anything a drawing makes use of).
pub const MAX_ANGLE_FX: i64 = 100_000_000_000_000;

/// Division truncating toward zero, as the `/` operator of the execution
/// model behaves on signed integers.
pub open spec fn div_trunc(a: int, b: int) -> int {
    if a >= 0 {
        a / b
    } else {
        -((-a) / b)
    }
}

/// The fixed-point degree value of an angle given in fixed-point radians:
/// `rad * 180 / pi`, with `pi` its fixed-point approximation and the
/// quotient truncated toward zero.
pub open spec fn rad_to_deg(rad: int) -> int {
    div_trunc(rad * 180_000_000, PI_FX as int)
}

/// The sweep of an arc from `start` to `end` (fixed-point radians, measured
/// clockwise from the positive x-axis), in fixed-point degrees, normalized
/// to the requested winding: a counter-clockwise arc sweeps by a
/// non-positive angle, a clockwise arc by a non-negative one, each reached
/// by at most one full-turn correction.
pub open spec fn sweep_deg(start: int, end: int, ccw: bool) -> int {
    let s = rad_to_deg(end - start);
    if ccw && s > 0 {
        s - DEG_360_FX
    } else if !ccw && s < 0 {
        s + DEG_360_FX
    } else {
        s
    }
}

/// Converts an angle from fixed-point radians to fixed-point degrees.
pub fn fx_rad_to_deg(rad: i64) -> (r: i64)
    requires
        -2 * MAX_ANGLE_FX <= rad <= 2 * MAX_ANGLE_FX,
    ensures
        r == rad_to_deg(rad as int),
        -12_000_000_000_000_000 <= r <= 12_000_000_000_000_000,
{
    if rad >= 0 {
        let num: u128 = (rad as u128) * 180_000_000;
        let q: u128 = num / (PI_FX as u128);
        proof {
            lemma_deg_quotient_bound(rad as int);
        }
        q as i64
    } else {
        let mag: i64 = -rad;
        let num: u128 = (mag as u128) * 180_000_000;
        let q: u128 = num / (PI_FX as u128);
        proof {
            lemma_deg_quotient_bound(mag as int);
        }
        let qi: i64 = q as i64;
        -qi
    }
}

/// For a non-negative angle within the accepted range, the degree quotient
/// stays well inside `i64`.
proof fn lemma_deg_quotient_bound(rad: int)
    requires
        0 <= rad <= 2 * MAX_ANGLE_FX,
    ensures
        0 <= (rad * 180_000_000) / (PI_FX as int) <= 12_000_000_000_000_000,
{
    let num = rad * 180_000_000;
    assert(num <= 36_000_000_000_000_000_000_000) by (nonlinear_arith)
        requires
            num == rad * 180_000_000,
            0 <= rad <= 200_000_000_000_000,
    ;
    assert(num / (PI_FX as int) <= 12_000_000_000_000_000) by (nonlinear_arith)
        requires
            0 <= num <= 36_000_000_000_000_000_000_000,
    ;
    assert(num / (PI_FX as int) >= 0) by (nonlinear_arith)
        requires
            0 <= num,
    ;
}

/// Scales an 8-bit alpha channel by a fixed-point factor in `[0, 1]`,
/// rounding to the nearest step.
pub open spec fn scale_alpha(a: int, factor: int) -> int {
    (a * factor + FX_HALF) / (FX_ONE as int)
}

/// Multiplies an alpha channel by a fixed-point factor in `[0, 1]`.
pub fn fx_scale_alpha(a: u8, factor: i64) -> (r: u8)
    requires
        0 <= factor <= FX_ONE,
    ensures
        r == scale_alpha(a as int, factor as int),
{
    proof {
        assert(a * factor <= 255 * FX_ONE) by (nonlinear_arith)
            requires
                0 <= a <= 255,
                0 <= factor <= FX_ONE,
        ;
    }
    let wide: u64 = (a as u64) * (factor as u64) + (FX_HALF as u64);
    proof {
        assert(wide / (FX_ONE as u64) <= 255) by (nonlinear_arith)
            requires
                wide == a * factor + FX_HALF,
                0 <= a <= 255,
                0 <= factor <= FX_ONE,
        ;
    }
    (wide / (FX_ONE as u64)) as u8
}

/// Scaling an alpha channel by a factor of one returns it unchanged.
pub proof fn lemma_scale_alpha_one(a: u8)
    ensures
        scale_alpha(a as int, FX_ONE as int) == a,
{
    assert((a as int * 1_000_000 + 500_000) / 1_000_000 == a) by (nonlinear_arith)
        requires
            0 <= a <= 255,
    ;
}

/// Clamps a fixed-point value to `[0, 1]`.
pub open spec fn clamp_unit(v: int) -> int {
    if v < 0 {
        0
    } else if v > FX_ONE {
        FX_ONE as int
    } else {
        v
    }
}

/// The integer quality, 0 to 100, that a fixed-point export quality maps
/// to: clamped to `[0, 1]`, scaled by 100 and rounded to the nearest
/// integer.
pub open spec fn quality_int(q: int) -> int {
    (clamp_unit(q) * 100 + FX_HALF) / (FX_ONE as int)
}

/// Converts a fixed-point export quality to the backend's integer scale.
pub fn fx_quality_int(q: i64) -> (r: u8)
    ensures
        r == quality_int(q as int),
        r <= 100,
{
    let c: i64 = if q < 0 {
        0
    } else if q > FX_ONE {
        FX_ONE
    } else {
        q
    };
    let wide: u64 = (c as u64) * 100 + (FX_HALF as u64);
    proof {
        assert(wide / (FX_ONE as u64) <= 100) by (nonlinear_arith)
            requires
                wide == c * 100 + FX_HALF,
                0 <= c <= FX_ONE,
        ;
    }
    (wide / (FX_ONE as u64)) as u8
}

} // verus!
