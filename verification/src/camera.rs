//! Orbit camera controller and rotation driver.
//!
//! The controller owns spherical camera state (distance, yaw, pitch, focus
//! point) and consumes one frame-batched input sample per tick, in the fixed
//! order rotate, zoom, reset; projection to a cartesian position comes last,
//! from trigonometric samples of the resulting angles that the caller
//! supplies. All inputs are clamped, never rejected.

use vstd::prelude::*;

use crate::fixed::COORD_LIMIT;
use crate::fixed::PI_FX;
use crate::fixed::SCALE;
use crate::fixed::clamp_spec;
use crate::fixed::degrees_to_radians;
use crate::fixed::div_trunc;
use crate::fixed::fx_mul;
use crate::fixed::fx_mul_unit;
use crate::fixed::fx_mul_wide;
use crate::fixed::lemma_mul_scaled_unit;
use crate::fixed::mul_scaled;
use crate::mesh::Vec2Fx;
use crate::mesh::Vec3Fx;
use vstd::wrapping::i64_specs;

verus! {

/// Largest pitch magnitude the controller ever stores: one fixed-point unit
/// inside 1.5 radians, so the pitch stays strictly within (-1.5, 1.5) and
/// the look-at transform never degenerates at the poles.
pub const PITCH_LIMIT: i64 = 1_499_999;

/// Default camera distance, 500 world units.
pub const DEFAULT_CAMERA_DISTANCE: i64 = 500_000_000;

/// Default lower zoom bound, 200 world units.
pub const DEFAULT_MIN_DISTANCE: i64 = 200_000_000;

/// Default upper zoom bound, 1500 world units.
pub const DEFAULT_MAX_DISTANCE: i64 = 1_500_000_000;

/// Default camera elevation angle, 25 degrees.
pub const DEFAULT_CAMERA_ANGLE_DEG: i64 = 25_000_000;

/// Default pointer-drag sensitivity, 0.003 radians per pixel.
pub const DEFAULT_ROTATE_SENSITIVITY: i64 = 3_000;

/// Default zoom speed, 20 world units per scroll unit.
pub const DEFAULT_ZOOM_SPEED: i64 = 20_000_000;

/// The default pitch: the default elevation angle converted to radians.
pub open spec fn default_pitch() -> int {
    div_trunc(mul_scaled(DEFAULT_CAMERA_ANGLE_DEG as int, PI_FX as int), 180)
}

/// The pitch stored for a configured elevation angle in degrees: the angle
/// converted to radians and clamped away from the poles, as every stored
/// pitch is.
pub open spec fn pitch_of_degrees(deg: int) -> int {
    clamp_spec(
        div_trunc(mul_scaled(deg, PI_FX as int), 180),
        -PITCH_LIMIT as int,
        PITCH_LIMIT as int,
    )
}

/// Orbit camera state: spherical coordinates around a focus point, with
/// zoom bounds and the configured defaults that a reset restores.
#[derive(Clone, Copy, PartialEq, Eq, Structural, Debug)]
pub struct OrbitCamera {
    /// Distance from the focus point, within `[min_distance, max_distance]`.
    pub distance: i64,
    /// Horizontal angle in radians; unbounded, it wraps through the trigonometry.
    pub yaw: i64,
    /// Vertical angle in radians, clamped to `[-PITCH_LIMIT, PITCH_LIMIT]`.
    pub pitch: i64,
    /// World-space center of the orbit; untouched by reset.
    pub focus: Vec3Fx,
    /// Lower zoom bound.
    pub min_distance: i64,
    /// Upper zoom bound.
    pub max_distance: i64,
    /// Distance restored by a reset.
    pub default_distance: i64,
    /// Pitch restored by a reset.
    pub default_pitch: i64,
}

/// One frame-batched input sample: whether the rotate button is held, every
/// pointer-motion delta and scroll delta of the tick, and the edge-triggered
/// reset key.
pub struct FrameInput {
    pub pointer_held: bool,
    pub motions: Vec<Vec2Fx>,
    pub scrolls: Vec<i64>,
    pub reset: bool,
}

/// Yaw after one pointer-motion sample: the scaled horizontal delta is
/// subtracted, wrapping on overflow as the angle only feeds trigonometry.
pub open spec fn yaw_after(yaw: i64, dx: i64, sensitivity: i64) -> i64 {
    i64_specs::wrapping_sub(yaw, mul_scaled(dx as int, sensitivity as int) as i64)
}

/// Pitch after one pointer-motion sample: the scaled vertical delta is
/// subtracted and the result clamped away from the poles.
pub open spec fn pitch_after(pitch: i64, dy: i64, sensitivity: i64) -> int {
    clamp_spec(
        pitch - mul_scaled(dy as int, sensitivity as int),
        -PITCH_LIMIT as int,
        PITCH_LIMIT as int,
    )
}

/// Yaw and pitch after a whole batch of pointer-motion samples, applied in
/// order with the clamp after every step.
pub open spec fn rotate_fold(yaw: i64, pitch: i64, motions: Seq<Vec2Fx>, sensitivity: i64) -> (
    i64,
    i64,
)
    decreases motions.len(),
{
    if motions.len() == 0 {
        (yaw, pitch)
    } else {
        let prev = rotate_fold(yaw, pitch, motions.drop_last(), sensitivity);
        let m = motions.last();
        (yaw_after(prev.0, m.x, sensitivity), pitch_after(prev.1, m.y, sensitivity) as i64)
    }
}

/// Distance after one scroll sample: the scaled scroll amount is subtracted
/// and the result clamped to the zoom bounds.
pub open spec fn distance_after(d: i64, scroll: i64, speed: i64, lo: i64, hi: i64) -> int {
    clamp_spec(d - mul_scaled(scroll as int, speed as int), lo as int, hi as int)
}

/// Distance after a whole batch of scroll samples, applied in order with
/// the clamp after every step.
pub open spec fn zoom_fold(d: i64, scrolls: Seq<i64>, speed: i64, lo: i64, hi: i64) -> i64
    decreases scrolls.len(),
{
    if scrolls.len() == 0 {
        d
    } else {
        distance_after(
            zoom_fold(d, scrolls.drop_last(), speed, lo, hi),
            scrolls.last(),
            speed,
            lo,
            hi,
        ) as i64
    }
}

/// The state a reset produces: configured default distance and pitch, yaw
/// zero, everything else (the focus point in particular) untouched.
pub open spec fn reset_spec(c: OrbitCamera) -> OrbitCamera {
    OrbitCamera { distance: c.default_distance, yaw: 0, pitch: c.default_pitch, ..c }
}

/// The state after one whole frame: rotate (only while the pointer is
/// held; otherwise the batch is discarded), then zoom, then reset.
pub open spec fn frame_step(
    c: OrbitCamera,
    held: bool,
    motions: Seq<Vec2Fx>,
    scrolls: Seq<i64>,
    reset: bool,
    sensitivity: i64,
    zoom_speed: i64,
) -> OrbitCamera {
    let rotated = if held {
        let yp = rotate_fold(c.yaw, c.pitch, motions, sensitivity);
        OrbitCamera { yaw: yp.0, pitch: yp.1, ..c }
    } else {
        c
    };
    let zoomed = OrbitCamera {
        distance: zoom_fold(
            rotated.distance,
            scrolls,
            zoom_speed,
            rotated.min_distance,
            rotated.max_distance,
        ),
        ..rotated
    };
    if reset {
        reset_spec(zoomed)
    } else {
        zoomed
    }
}

/// The spherical-to-cartesian offset from the focus point, given the unit
/// samples of pitch and yaw: `distance * (cos p * sin y, sin p, cos p * cos y)`.
pub open spec fn projected_offset(distance: int, cp: int, sp: int, cy: int, sy: int) -> (
    int,
    int,
    int,
) {
    (
        mul_scaled(distance, mul_scaled(cp, sy)),
        mul_scaled(distance, sp),
        mul_scaled(distance, mul_scaled(cp, cy)),
    )
}

impl OrbitCamera {
    /// Bounds every operation preserves: the distance inside the zoom
    /// interval, the pitch inside the clamp, defaults likewise, and
    /// magnitudes small enough for the projection arithmetic.
    pub open spec fn wf(self) -> bool {
        &&& 0 <= self.min_distance <= self.max_distance <= COORD_LIMIT
        &&& self.min_distance <= self.distance <= self.max_distance
        &&& -PITCH_LIMIT <= self.pitch <= PITCH_LIMIT
        &&& self.min_distance <= self.default_distance <= self.max_distance
        &&& -PITCH_LIMIT <= self.default_pitch <= PITCH_LIMIT
        &&& -COORD_LIMIT <= self.focus.x <= COORD_LIMIT
        &&& -COORD_LIMIT <= self.focus.y <= COORD_LIMIT
        &&& -COORD_LIMIT <= self.focus.z <= COORD_LIMIT
    }

    /// Applies every pointer-motion sample of the frame while the pointer
    /// is held; with the pointer up the batch is discarded, so no residual
    /// drift is possible.
    pub fn apply_rotation(&mut self, motions: &Vec<Vec2Fx>, pointer_held: bool, sensitivity: i64)
        requires
            old(self).wf(),
            0 <= sensitivity <= SCALE,
        ensures
            final(self).wf(),
            pointer_held ==> (final(self).yaw, final(self).pitch) == rotate_fold(
                old(self).yaw,
                old(self).pitch,
                motions@,
                sensitivity,
            ),
            !pointer_held ==> final(self).yaw == old(self).yaw && final(self).pitch == old(
                self,
            ).pitch,
            *final(self) == (OrbitCamera {
                yaw: final(self).yaw,
                pitch: final(self).pitch,
                ..*old(self)
            }),
    {
        if !pointer_held {
            return ;
        }
        let ghost orig = *self;
        let mut i: usize = 0;
        while i < motions.len()
            invariant
                i <= motions@.len(),
                orig.wf(),
                0 <= sensitivity <= SCALE,
                (self.yaw, self.pitch) == rotate_fold(
                    orig.yaw,
                    orig.pitch,
                    motions@.take(i as int),
                    sensitivity,
                ),
                -PITCH_LIMIT <= self.pitch <= PITCH_LIMIT,
                *self == (OrbitCamera { yaw: self.yaw, pitch: self.pitch, ..orig }),
            decreases motions@.len() - i,
        {
            let m = motions[i];
            let dyaw: i64 = fx_mul_unit(m.x, sensitivity);
            let dpitch: i64 = fx_mul_unit(m.y, sensitivity);
            let new_yaw: i64 = self.yaw.wrapping_sub(dyaw);
            let raw: i128 = (self.pitch as i128) - (dpitch as i128);
            let new_pitch: i64 = if raw < -(PITCH_LIMIT as i128) {
                -PITCH_LIMIT
            } else if raw > PITCH_LIMIT as i128 {
                PITCH_LIMIT
            } else {
                raw as i64
            };
            proof {
                assert(motions@.take(i as int + 1).drop_last() =~= motions@.take(i as int));
                assert(motions@.take(i as int + 1).last() == motions@[i as int]);
            }
            self.yaw = new_yaw;
            self.pitch = new_pitch;
            i += 1;
        }
        proof {
            assert(motions@.take(motions@.len() as int) =~= motions@);
        }
    }

    /// Applies every scroll sample of the frame, clamping the distance to
    /// the zoom bounds after each one.
    pub fn apply_zoom(&mut self, scrolls: &Vec<i64>, zoom_speed: i64)
        requires
            old(self).wf(),
        ensures
            final(self).wf(),
            final(self).distance == zoom_fold(
                old(self).distance,
                scrolls@,
                zoom_speed,
                old(self).min_distance,
                old(self).max_distance,
            ),
            *final(self) == (OrbitCamera { distance: final(self).distance, ..*old(self) }),
    {
        let ghost orig = *self;
        let mut i: usize = 0;
        while i < scrolls.len()
            invariant
                i <= scrolls@.len(),
                orig.wf(),
                self.distance == zoom_fold(
                    orig.distance,
                    scrolls@.take(i as int),
                    zoom_speed,
                    orig.min_distance,
                    orig.max_distance,
                ),
                orig.min_distance <= self.distance <= orig.max_distance,
                *self == (OrbitCamera { distance: self.distance, ..orig }),
            decreases scrolls@.len() - i,
        {
            let s = scrolls[i];
            let delta: i128 = fx_mul_wide(s, zoom_speed);
            let raw: i128 = (self.distance as i128) - delta;
            let nd: i64 = if raw < self.min_distance as i128 {
                self.min_distance
            } else if raw > self.max_distance as i128 {
                self.max_distance
            } else {
                raw as i64
            };
            proof {
                assert(scrolls@.take(i as int + 1).drop_last() =~= scrolls@.take(i as int));
                assert(scrolls@.take(i as int + 1).last() == scrolls@[i as int]);
            }
            self.distance = nd;
            i += 1;
        }
        proof {
            assert(scrolls@.take(scrolls@.len() as int) =~= scrolls@);
        }
    }

    /// Restores the configured default distance and pitch and zeroes the
    /// yaw; the focus point is untouched.
    pub fn reset(&mut self)
        requires
            old(self).wf(),
        ensures
            final(self).wf(),
            *final(self) == reset_spec(*old(self)),
    {
        self.distance = self.default_distance;
        self.yaw = 0;
        self.pitch = self.default_pitch;
    }

    /// One whole frame of input, in the fixed order rotate, zoom, reset;
    /// reset comes after zoom so the same frame already projects the reset
    /// state.
    pub fn frame_update(&mut self, input: &FrameInput, sensitivity: i64, zoom_speed: i64)
        requires
            old(self).wf(),
            0 <= sensitivity <= SCALE,
        ensures
            final(self).wf(),
            *final(self) == frame_step(
                *old(self),
                input.pointer_held,
                input.motions@,
                input.scrolls@,
                input.reset,
                sensitivity,
                zoom_speed,
            ),
    {
        self.apply_rotation(&input.motions, input.pointer_held, sensitivity);
        self.apply_zoom(&input.scrolls, zoom_speed);
        if input.reset {
            self.reset();
        }
    }

    /// The camera's world position: the focus point plus the spherical
    /// offset, from unit samples of the current pitch and yaw that the
    /// caller computed. The camera then looks from this point toward the
    /// focus with a fixed up axis; that orientation is the renderer's to
    /// build.
    pub fn camera_position(&self, pitch_cos: i64, pitch_sin: i64, yaw_cos: i64, yaw_sin: i64) -> (p:
        Vec3Fx)
        requires
            self.wf(),
            -SCALE <= pitch_cos <= SCALE,
            -SCALE <= pitch_sin <= SCALE,
            -SCALE <= yaw_cos <= SCALE,
            -SCALE <= yaw_sin <= SCALE,
        ensures
            p@ == (
                self.focus.x + projected_offset(
                    self.distance as int,
                    pitch_cos as int,
                    pitch_sin as int,
                    yaw_cos as int,
                    yaw_sin as int,
                ).0,
                self.focus.y + projected_offset(
                    self.distance as int,
                    pitch_cos as int,
                    pitch_sin as int,
                    yaw_cos as int,
                    yaw_sin as int,
                ).1,
                self.focus.z + projected_offset(
                    self.distance as int,
                    pitch_cos as int,
                    pitch_sin as int,
                    yaw_cos as int,
                    yaw_sin as int,
                ).2,
            ),
    {
        proof {
            lemma_mul_scaled_unit(pitch_cos as int, yaw_sin as int, SCALE as int);
            lemma_mul_scaled_unit(pitch_cos as int, yaw_cos as int, SCALE as int);
        }
        let dir_x: i64 = fx_mul(pitch_cos, yaw_sin);
        let dir_z: i64 = fx_mul(pitch_cos, yaw_cos);
        proof {
            lemma_mul_scaled_unit(self.distance as int, dir_x as int, COORD_LIMIT as int);
            lemma_mul_scaled_unit(self.distance as int, pitch_sin as int, COORD_LIMIT as int);
            lemma_mul_scaled_unit(self.distance as int, dir_z as int, COORD_LIMIT as int);
        }
        let off_x: i64 = fx_mul(self.distance, dir_x);
        let off_y: i64 = fx_mul(self.distance, pitch_sin);
        let off_z: i64 = fx_mul(self.distance, dir_z);
        Vec3Fx { x: self.focus.x + off_x, y: self.focus.y + off_y, z: self.focus.z + off_z }
    }
}

impl Default for OrbitCamera {
    /// The scene-start state: default distance and elevation, yaw zero,
    /// orbiting the world origin within the default zoom bounds.
    fn default() -> (c: Self)
        ensures
            c.distance == DEFAULT_CAMERA_DISTANCE,
            c.yaw == 0,
            c.pitch == default_pitch(),
            c.focus == (Vec3Fx { x: 0, y: 0, z: 0 }),
            c.min_distance == DEFAULT_MIN_DISTANCE,
            c.max_distance == DEFAULT_MAX_DISTANCE,
            c.default_distance == DEFAULT_CAMERA_DISTANCE,
            c.default_pitch == default_pitch(),
            c.wf(),
    {
        let pitch = degrees_to_radians(DEFAULT_CAMERA_ANGLE_DEG);
        proof {
            assert(default_pitch() == 436_332);
        }
        OrbitCamera {
            distance: DEFAULT_CAMERA_DISTANCE,
            yaw: 0,
            pitch,
            focus: Vec3Fx { x: 0, y: 0, z: 0 },
            min_distance: DEFAULT_MIN_DISTANCE,
            max_distance: DEFAULT_MAX_DISTANCE,
            default_distance: DEFAULT_CAMERA_DISTANCE,
            default_pitch: pitch,
        }
    }
}

/// After any batch of rotate samples the pitch still lies inside the clamp,
/// hence strictly within (-1.5, 1.5) radians.
pub proof fn lemma_pitch_always_clamped(
    yaw: i64,
    pitch: i64,
    motions: Seq<Vec2Fx>,
    sensitivity: i64,
)
    requires
        -PITCH_LIMIT <= pitch <= PITCH_LIMIT,
    ensures
        -PITCH_LIMIT <= rotate_fold(yaw, pitch, motions, sensitivity).1 <= PITCH_LIMIT,
        -1_500_000 < rotate_fold(yaw, pitch, motions, sensitivity).1 < 1_500_000,
    decreases motions.len(),
{
    if motions.len() > 0 {
        lemma_pitch_always_clamped(yaw, pitch, motions.drop_last(), sensitivity);
    }
}

/// After any batch of zoom samples the distance still lies inside
/// `[lo, hi]`, the configured zoom bounds.
pub proof fn lemma_distance_always_bounded(
    d: i64,
    scrolls: Seq<i64>,
    speed: i64,
    lo: i64,
    hi: i64,
)
    requires
        lo <= d <= hi,
    ensures
        lo <= zoom_fold(d, scrolls, speed, lo, hi) <= hi,
    decreases scrolls.len(),
{
    if scrolls.len() > 0 {
        lemma_distance_always_bounded(d, scrolls.drop_last(), speed, lo, hi);
    }
}

/// A whole frame of any input leaves a well-formed camera well-formed: the
/// pitch clamp and the zoom bounds hold in every state the controller can
/// reach, whatever frames arrive in whatever order.
pub proof fn lemma_frame_step_preserves_wf(
    c: OrbitCamera,
    held: bool,
    motions: Seq<Vec2Fx>,
    scrolls: Seq<i64>,
    reset: bool,
    sensitivity: i64,
    zoom_speed: i64,
)
    requires
        c.wf(),
    ensures
        frame_step(c, held, motions, scrolls, reset, sensitivity, zoom_speed).wf(),
{
    lemma_pitch_always_clamped(c.yaw, c.pitch, motions, sensitivity);
    let rotated = if held {
        let yp = rotate_fold(c.yaw, c.pitch, motions, sensitivity);
        OrbitCamera { yaw: yp.0, pitch: yp.1, ..c }
    } else {
        c
    };
    lemma_distance_always_bounded(
        rotated.distance,
        scrolls,
        zoom_speed,
        rotated.min_distance,
        rotated.max_distance,
    );
}

/// Reset is idempotent: resetting twice in a row yields the same state as
/// resetting once.
pub proof fn lemma_reset_idempotent(c: OrbitCamera)
    ensures
        reset_spec(reset_spec(c)) == reset_spec(c),
{
}

/// At yaw 0 and pitch 0 both angles sample to (cos, sin) = (1, 0), and the
/// projected offset is exactly (0, 0, distance): the camera stands at
/// `focus + (0, 0, distance)` and the direction toward the focus is the
/// negative z axis.
pub proof fn lemma_projection_centered(distance: int)
    ensures
        projected_offset(distance, SCALE as int, 0, SCALE as int, 0) == (0int, 0int, distance),
{
    vstd::arithmetic::div_mod::lemma_div_multiples_vanish(distance, SCALE as int);
    vstd::arithmetic::div_mod::lemma_div_multiples_vanish(-distance, SCALE as int);
    assert(distance * (SCALE as int) == (SCALE as int) * distance) by (nonlinear_arith);
    assert((-distance) * (SCALE as int) == (SCALE as int) * (-distance)) by (nonlinear_arith);
    assert(-(distance * (SCALE as int)) == (-distance) * (SCALE as int)) by (nonlinear_arith);
    assert(mul_scaled(distance, SCALE as int) == distance);
    assert(mul_scaled((SCALE as int), (SCALE as int)) == SCALE as int);
    assert(mul_scaled((SCALE as int), 0) == 0);
    assert(mul_scaled(distance, 0) == 0);
}

/// Marker state for the spinning parent object: its rotation speed about
/// the vertical axis, in radians per second.
#[derive(Clone, Copy, PartialEq, Eq, Structural, Debug)]
pub struct RotatingObject {
    pub speed: i64,
}

impl Default for RotatingObject {
    /// Half a radian per second: a full turn in about 13 seconds.
    fn default() -> (s: Self)
        ensures
            s.speed == 500_000,
    {
        RotatingObject { speed: 500_000 }
    }
}

/// The angle to add to the spinning parent this frame: rotation speed times
/// the elapsed seconds, both in fixed point.
pub fn rotation_increment(speed: i64, elapsed: i64) -> (r: i64)
    requires
        -crate::fixed::FACTOR_LIMIT <= speed <= crate::fixed::FACTOR_LIMIT,
        0 <= elapsed <= COORD_LIMIT,
    ensures
        r == mul_scaled(elapsed as int, speed as int),
{
    fx_mul(elapsed, speed)
}

} // verus!
