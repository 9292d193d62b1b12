//! The immutable configuration of the emblem scene and its camera: plain
//! numeric knobs, validated once at load time, before any mesh is built.

use vstd::prelude::*;

use crate::GeometryError;
use crate::camera::DEFAULT_CAMERA_ANGLE_DEG;
use crate::camera::DEFAULT_CAMERA_DISTANCE;
use crate::camera::DEFAULT_MAX_DISTANCE;
use crate::camera::DEFAULT_MIN_DISTANCE;
use crate::camera::OrbitCamera;
use crate::camera::PITCH_LIMIT;
use crate::camera::pitch_of_degrees;
use crate::fixed::COORD_LIMIT;
use crate::fixed::degrees_to_radians;
use crate::mesh::Vec3Fx;

verus! {

/// Every knob of the scene, in fixed-point units where a length or angle is
/// meant: ring radii and thickness, segment and triangle counts, triangle
/// sides, extrusion depth, and the camera's defaults and zoom bounds.
#[derive(Clone, Copy, PartialEq, Eq, Structural, Debug)]
pub struct EmblemConfig {
    /// Outer radius of the main ring.
    pub circle_radius: i64,
    /// Radial thickness of the main ring.
    pub circle_thickness: i64,
    /// Angle steps of the main ring.
    pub circle_segments: usize,
    /// Number of decorative triangles outside the ring.
    pub exterior_triangle_count: usize,
    /// Side length of the exterior triangles.
    pub small_triangle_side: i64,
    /// Number of large triangles inside the ring.
    pub interior_triangle_count: usize,
    /// Side length of the interior triangles.
    pub large_triangle_side: i64,
    /// Radius of the small accent circles.
    pub small_circle_radius: i64,
    /// Angle steps of the small accent circles.
    pub small_circle_segments: usize,
    /// Extrusion depth shared by every shape.
    pub depth: i64,
    /// Camera distance at scene start and after a reset.
    pub camera_distance: i64,
    /// Camera elevation angle at scene start and after a reset, in degrees.
    pub camera_angle_deg: i64,
    /// Lower zoom bound.
    pub min_distance: i64,
    /// Upper zoom bound.
    pub max_distance: i64,
}

/// A loadable configuration: the zoom interval is non-empty and every
/// segment count is positive.
pub open spec fn config_ok(c: EmblemConfig) -> bool {
    &&& c.min_distance < c.max_distance
    &&& c.circle_segments > 0
    &&& c.small_circle_segments > 0
}

/// Checks a configuration at load time, before any mesh is built: a zoom
/// interval with `min >= max` or a segment count of zero is rejected.
pub fn validate_config(c: &EmblemConfig) -> (r: Result<(), GeometryError>)
    ensures
        r is Ok <==> config_ok(*c),
        r is Err ==> r == Err::<(), GeometryError>(GeometryError::ConfigurationOutOfRange),
{
    if c.min_distance >= c.max_distance || c.circle_segments == 0 || c.small_circle_segments == 0 {
        Err(GeometryError::ConfigurationOutOfRange)
    } else {
        Ok(())
    }
}

/// A configuration whose camera knobs form a well-formed camera state: a
/// non-empty zoom interval inside the arithmetic bounds, the start distance
/// within it, and an elevation angle the converter accepts.
pub open spec fn camera_config_ok(c: EmblemConfig) -> bool {
    &&& 0 <= c.min_distance < c.max_distance <= COORD_LIMIT
    &&& c.min_distance <= c.camera_distance <= c.max_distance
    &&& -COORD_LIMIT <= c.camera_angle_deg <= COORD_LIMIT
}

impl OrbitCamera {
    /// The camera's scene-start state under a configuration: the configured
    /// distance and elevation angle (converted to radians and clamped away
    /// from the poles, as every stored pitch is), yaw zero, orbiting the
    /// world origin within the configured zoom bounds. A reset restores
    /// exactly this distance and pitch.
    pub fn from_config(c: &EmblemConfig) -> (r: Result<OrbitCamera, GeometryError>)
        ensures
            r is Ok <==> camera_config_ok(*c),
            r is Err ==> r == Err::<OrbitCamera, GeometryError>(
                GeometryError::ConfigurationOutOfRange,
            ),
            r matches Ok(cam) ==> {
                &&& cam.wf()
                &&& cam.distance == c.camera_distance
                &&& cam.yaw == 0
                &&& cam.pitch == pitch_of_degrees(c.camera_angle_deg as int)
                &&& cam.focus == (Vec3Fx { x: 0, y: 0, z: 0 })
                &&& cam.min_distance == c.min_distance
                &&& cam.max_distance == c.max_distance
                &&& cam.default_distance == c.camera_distance
                &&& cam.default_pitch == cam.pitch
            },
    {
        if c.min_distance < 0 || c.min_distance >= c.max_distance || c.max_distance > COORD_LIMIT
            || c.camera_distance < c.min_distance || c.camera_distance > c.max_distance
            || c.camera_angle_deg < -COORD_LIMIT || c.camera_angle_deg > COORD_LIMIT {
            return Err(GeometryError::ConfigurationOutOfRange);
        }
        let raw_pitch = degrees_to_radians(c.camera_angle_deg);
        let pitch: i64 = if raw_pitch < -PITCH_LIMIT {
            -PITCH_LIMIT
        } else if raw_pitch > PITCH_LIMIT {
            PITCH_LIMIT
        } else {
            raw_pitch
        };
        Ok(
            OrbitCamera {
                distance: c.camera_distance,
                yaw: 0,
                pitch,
                focus: Vec3Fx { x: 0, y: 0, z: 0 },
                min_distance: c.min_distance,
                max_distance: c.max_distance,
                default_distance: c.camera_distance,
                default_pitch: pitch,
            },
        )
    }
}

impl Default for EmblemConfig {
    /// The emblem as designed: a ring of radius 200 and thickness 30 at 64
    /// segments, 36 small exterior triangles of side 25, 5 interior
    /// triangles of side 80 with accent circles of radius 15 at 32
    /// segments, depth 10 throughout, and the default camera.
    fn default() -> (c: Self)
        ensures
            c.circle_radius == 200_000_000,
            c.circle_thickness == 30_000_000,
            c.circle_segments == 64,
            c.exterior_triangle_count == 36,
            c.small_triangle_side == 25_000_000,
            c.interior_triangle_count == 5,
            c.large_triangle_side == 80_000_000,
            c.small_circle_radius == 15_000_000,
            c.small_circle_segments == 32,
            c.depth == 10_000_000,
            c.camera_distance == DEFAULT_CAMERA_DISTANCE,
            c.camera_angle_deg == DEFAULT_CAMERA_ANGLE_DEG,
            c.min_distance == DEFAULT_MIN_DISTANCE,
            c.max_distance == DEFAULT_MAX_DISTANCE,
            config_ok(c),
    {
        EmblemConfig {
            circle_radius: 200_000_000,
            circle_thickness: 30_000_000,
            circle_segments: 64,
            exterior_triangle_count: 36,
            small_triangle_side: 25_000_000,
            interior_triangle_count: 5,
            large_triangle_side: 80_000_000,
            small_circle_radius: 15_000_000,
            small_circle_segments: 32,
            depth: 10_000_000,
            camera_distance: DEFAULT_CAMERA_DISTANCE,
            camera_angle_deg: DEFAULT_CAMERA_ANGLE_DEG,
            min_distance: DEFAULT_MIN_DISTANCE,
            max_distance: DEFAULT_MAX_DISTANCE,
        }
    }
}

} // verus!
