//! Layout math: pure trigonometric helpers computing placement points for
//! the decorative triangles and accent circles around the main ring.
//!
//! An isosceles triangle "sits tangent" to a circle: its two base corners
//! lie on the circle at `base_angle` plus and minus a small corner angle,
//! and its apex is displaced radially from the circle by the height of an
//! equilateral triangle. The corner angle is the chord approximation
//! `half_side / radius`, not exact arc length. As everywhere in this crate,
//! the caller supplies unit-circle samples for the angles it computed.

use vstd::prelude::*;

use crate::fixed::COORD_LIMIT;
use crate::fixed::SCALE;
use crate::fixed::SQRT3_HALF_FX;
use crate::fixed::div_trunc;
use crate::fixed::fx_div_int;
use crate::fixed::fx_mul;
use crate::fixed::lemma_mul_magnitude;
use crate::fixed::lemma_mul_scaled_unit;
use crate::fixed::mul_scaled;
use crate::mesh::Vec2Fx;
use vstd::arithmetic::div_mod::lemma_div_nonincreasing;

verus! {

/// The corner half-angle of a triangle of side `side` tangent to a circle
/// of radius `radius`: `(side / 2) / radius`, in fixed-point radians.
pub open spec fn corner_angle_delta(side: int, radius: int) -> int {
    div_trunc((side / 2) * (SCALE as int), radius)
}

/// The height of an equilateral triangle over side `side`: `side * sqrt(3)/2`.
pub open spec fn triangle_height_spec(side: int) -> int {
    mul_scaled(side, SQRT3_HALF_FX as int)
}

/// The two base-corner angles of a triangle sitting tangent to a circle:
/// the base angle minus and plus the corner half-angle.
pub fn triangle_base_angles(base_angle: i64, circle_radius: i64, triangle_side: i64) -> (r: (
    i64,
    i64,
))
    requires
        0 < circle_radius <= COORD_LIMIT,
        0 <= triangle_side <= COORD_LIMIT,
        -COORD_LIMIT <= base_angle <= COORD_LIMIT,
    ensures
        r.0 == base_angle - corner_angle_delta(triangle_side as int, circle_radius as int),
        r.1 == base_angle + corner_angle_delta(triangle_side as int, circle_radius as int),
{
    let half_side: i64 = ((triangle_side as u64) / 2) as i64;
    proof {
        lemma_mul_magnitude(
            half_side as int,
            SCALE as int,
            COORD_LIMIT as int,
            SCALE as int,
        );
    }
    let num: i64 = half_side * SCALE;
    proof {
        lemma_div_nonincreasing(num as int, circle_radius as int);
    }
    let delta: i64 = ((num as u64) / (circle_radius as u64)) as i64;
    (base_angle - delta, base_angle + delta)
}

/// The point at `radius` along the direction of the unit sample `s`.
pub fn polar_point(radius: i64, s: Vec2Fx) -> (p: Vec2Fx)
    requires
        -COORD_LIMIT <= radius <= COORD_LIMIT,
        -SCALE <= s.x <= SCALE,
        -SCALE <= s.y <= SCALE,
    ensures
        p@ == (mul_scaled(radius as int, s.x as int), mul_scaled(radius as int, s.y as int)),
{
    Vec2Fx { x: fx_mul(radius, s.x), y: fx_mul(radius, s.y) }
}

/// The three corners of a decorative triangle outside the circle: two base
/// corners on the circle at the unit samples of the two base-corner angles
/// (see [`triangle_base_angles`]), and the apex displaced radially outward
/// by the equilateral height of the side.
pub fn calculate_exterior_triangle_points(
    circle_radius: i64,
    triangle_side: i64,
    s1: Vec2Fx,
    s2: Vec2Fx,
    s_base: Vec2Fx,
) -> (r: (Vec2Fx, Vec2Fx, Vec2Fx))
    requires
        0 <= circle_radius <= COORD_LIMIT / 2,
        0 <= triangle_side <= COORD_LIMIT / 2,
        -SCALE <= s1.x <= SCALE && -SCALE <= s1.y <= SCALE,
        -SCALE <= s2.x <= SCALE && -SCALE <= s2.y <= SCALE,
        -SCALE <= s_base.x <= SCALE && -SCALE <= s_base.y <= SCALE,
    ensures
        r.0@ == (
            mul_scaled(circle_radius as int, s1.x as int),
            mul_scaled(circle_radius as int, s1.y as int),
        ),
        r.1@ == (
            mul_scaled(circle_radius as int, s2.x as int),
            mul_scaled(circle_radius as int, s2.y as int),
        ),
        r.2@ == (
            mul_scaled(
                circle_radius + triangle_height_spec(triangle_side as int),
                s_base.x as int,
            ),
            mul_scaled(
                circle_radius + triangle_height_spec(triangle_side as int),
                s_base.y as int,
            ),
        ),
{
    proof {
        lemma_mul_scaled_unit(triangle_side as int, SQRT3_HALF_FX as int, COORD_LIMIT as int / 2);
    }
    let height: i64 = fx_mul(triangle_side, SQRT3_HALF_FX);
    let apex_radius: i64 = circle_radius + height;
    (polar_point(circle_radius, s1), polar_point(circle_radius, s2), polar_point(
        apex_radius,
        s_base,
    ))
}

/// The symmetric variant for a triangle inside the circle: base corners on
/// the inner circle, apex displaced radially inward by the same height.
pub fn calculate_interior_triangle_points(
    inner_radius: i64,
    triangle_side: i64,
    s1: Vec2Fx,
    s2: Vec2Fx,
    s_base: Vec2Fx,
) -> (r: (Vec2Fx, Vec2Fx, Vec2Fx))
    requires
        0 <= inner_radius <= COORD_LIMIT / 2,
        0 <= triangle_side <= COORD_LIMIT / 2,
        -SCALE <= s1.x <= SCALE && -SCALE <= s1.y <= SCALE,
        -SCALE <= s2.x <= SCALE && -SCALE <= s2.y <= SCALE,
        -SCALE <= s_base.x <= SCALE && -SCALE <= s_base.y <= SCALE,
    ensures
        r.0@ == (
            mul_scaled(inner_radius as int, s1.x as int),
            mul_scaled(inner_radius as int, s1.y as int),
        ),
        r.1@ == (
            mul_scaled(inner_radius as int, s2.x as int),
            mul_scaled(inner_radius as int, s2.y as int),
        ),
        r.2@ == (
            mul_scaled(inner_radius - triangle_height_spec(triangle_side as int), s_base.x as int),
            mul_scaled(inner_radius - triangle_height_spec(triangle_side as int), s_base.y as int),
        ),
{
    proof {
        lemma_mul_scaled_unit(triangle_side as int, SQRT3_HALF_FX as int, COORD_LIMIT as int / 2);
    }
    let height: i64 = fx_mul(triangle_side, SQRT3_HALF_FX);
    let apex_radius: i64 = inner_radius - height;
    (polar_point(inner_radius, s1), polar_point(inner_radius, s2), polar_point(
        apex_radius,
        s_base,
    ))
}

/// The centroid of a triangle: the arithmetic mean of its three corners.
pub fn calculate_triangle_centroid(p1: Vec2Fx, p2: Vec2Fx, p3: Vec2Fx) -> (c: Vec2Fx)
    requires
        -COORD_LIMIT <= p1.x <= COORD_LIMIT && -COORD_LIMIT <= p1.y <= COORD_LIMIT,
        -COORD_LIMIT <= p2.x <= COORD_LIMIT && -COORD_LIMIT <= p2.y <= COORD_LIMIT,
        -COORD_LIMIT <= p3.x <= COORD_LIMIT && -COORD_LIMIT <= p3.y <= COORD_LIMIT,
    ensures
        c@ == (
            div_trunc(p1.x as int + p2.x as int + p3.x as int, 3),
            div_trunc(p1.y as int + p2.y as int + p3.y as int, 3),
        ),
{
    Vec2Fx { x: fx_div_int(p1.x + p2.x + p3.x, 3), y: fx_div_int(p1.y + p2.y + p3.y, 3) }
}

} // verus!
