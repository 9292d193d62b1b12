use emblem3d::GeometryError;
use emblem3d::camera::FrameInput;
use emblem3d::camera::OrbitCamera;
use emblem3d::camera::RotatingObject;
use emblem3d::camera::rotation_increment;
use emblem3d::config::EmblemConfig;
use emblem3d::mesh::Vec2Fx;
use emblem3d::mesh::Vec3Fx;

const S: i64 = 1_000_000;

#[test]
fn default_camera_state() {
    let c = OrbitCamera::default();
    assert_eq!(c.distance, 500 * S);
    assert_eq!(c.yaw, 0);
    // 25 degrees in fixed-point radians, truncated.
    assert_eq!(c.pitch, 436_332);
    assert_eq!(c.focus, Vec3Fx { x: 0, y: 0, z: 0 });
    assert_eq!(c.min_distance, 200 * S);
    assert_eq!(c.max_distance, 1500 * S);
}

#[test]
fn camera_from_default_config_matches_default_camera() {
    let cfg = EmblemConfig::default();
    let c = OrbitCamera::from_config(&cfg).unwrap();
    assert_eq!(c, OrbitCamera::default());
}

#[test]
fn camera_from_config_clamps_steep_elevation() {
    // 180 degrees converts past the pole clamp; the pitch pins just inside.
    let mut cfg = EmblemConfig::default();
    cfg.camera_angle_deg = 180 * S;
    let c = OrbitCamera::from_config(&cfg).unwrap();
    assert_eq!(c.pitch, 1_499_999);
}

#[test]
fn camera_from_config_rejects_bad_camera_knobs() {
    // Start distance outside the zoom interval.
    let mut cfg = EmblemConfig::default();
    cfg.camera_distance = cfg.max_distance + 1;
    assert_eq!(
        OrbitCamera::from_config(&cfg).unwrap_err(),
        GeometryError::ConfigurationOutOfRange
    );
    // Empty zoom interval.
    let mut cfg2 = EmblemConfig::default();
    cfg2.min_distance = cfg2.max_distance;
    assert_eq!(
        OrbitCamera::from_config(&cfg2).unwrap_err(),
        GeometryError::ConfigurationOutOfRange
    );
}

#[test]
fn zoom_scenario_scroll_back_then_clamp() {
    // -5 scroll units at zoom speed 20 moves 500 out to 600.
    let mut c = OrbitCamera::default();
    c.apply_zoom(&vec![-5 * S], 20 * S);
    assert_eq!(c.distance, 600 * S);
    // From 1499 the same scroll exceeds the bound and clamps to 1500.
    c.distance = 1499 * S;
    c.apply_zoom(&vec![-5 * S], 20 * S);
    assert_eq!(c.distance, 1500 * S);
}

#[test]
fn zoom_clamps_to_min_distance() {
    let mut c = OrbitCamera::default();
    // +100 scroll units try to move 500 down to -1500; the floor is 200.
    c.apply_zoom(&vec![100 * S], 20 * S);
    assert_eq!(c.distance, 200 * S);
}

#[test]
fn zoom_applies_every_sample_in_order() {
    let mut c = OrbitCamera::default();
    c.apply_zoom(&vec![-5 * S, 2 * S, -1 * S], 20 * S);
    // 500 -> 600 -> 560 -> 580.
    assert_eq!(c.distance, 580 * S);
}

#[test]
fn rotation_moves_yaw_and_pitch() {
    let mut c = OrbitCamera::default();
    c.yaw = 0;
    c.pitch = 0;
    // A drag of (5, -2) pixels at sensitivity 0.003.
    c.apply_rotation(&vec![Vec2Fx { x: 5 * S, y: -2 * S }], true, 3_000);
    assert_eq!(c.yaw, -15_000);
    assert_eq!(c.pitch, 6_000);
}

#[test]
fn rotation_clamps_pitch_away_from_poles() {
    let mut c = OrbitCamera::default();
    // A huge upward drag pins the pitch at the clamp, strictly inside 1.5.
    c.apply_rotation(&vec![Vec2Fx { x: 0, y: -1_000_000 * S }], true, 3_000);
    assert_eq!(c.pitch, 1_499_999);
    assert!(c.pitch < 1_500_000);
    c.apply_rotation(&vec![Vec2Fx { x: 0, y: 1_000_000 * S }], true, 3_000);
    assert_eq!(c.pitch, -1_499_999);
    assert!(c.pitch > -1_500_000);
}

#[test]
fn rotation_discards_motion_when_pointer_up() {
    let mut c = OrbitCamera::default();
    let before = c;
    c.apply_rotation(&vec![Vec2Fx { x: 50 * S, y: 50 * S }], false, 3_000);
    assert_eq!(c, before);
}

#[test]
fn reset_restores_defaults_but_not_focus() {
    let mut c = OrbitCamera::default();
    c.focus = Vec3Fx { x: 7, y: 8, z: 9 };
    c.yaw = 123;
    c.pitch = -456;
    c.distance = 900 * S;
    c.reset();
    assert_eq!(c.distance, 500 * S);
    assert_eq!(c.yaw, 0);
    assert_eq!(c.pitch, 436_332);
    assert_eq!(c.focus, Vec3Fx { x: 7, y: 8, z: 9 });
}

#[test]
fn reset_twice_equals_reset_once() {
    let mut once = OrbitCamera::default();
    once.yaw = 123;
    once.pitch = -456;
    once.distance = 900 * S;
    let mut twice = once;
    once.reset();
    twice.reset();
    twice.reset();
    assert_eq!(once, twice);
}

#[test]
fn frame_applies_rotate_zoom_reset_in_order() {
    let mut c = OrbitCamera::default();
    let input = FrameInput {
        pointer_held: true,
        motions: vec![Vec2Fx { x: 5 * S, y: 0 }],
        scrolls: vec![-5 * S],
        reset: true,
    };
    c.frame_update(&input, 3_000, 20 * S);
    // The reset lands after rotate and zoom, so the frame ends on defaults.
    assert_eq!(c.distance, 500 * S);
    assert_eq!(c.yaw, 0);
    assert_eq!(c.pitch, 436_332);
}

#[test]
fn frame_without_reset_keeps_motion() {
    let mut c = OrbitCamera::default();
    c.pitch = 0;
    let input = FrameInput {
        pointer_held: true,
        motions: vec![Vec2Fx { x: 5 * S, y: 0 }],
        scrolls: vec![-5 * S],
        reset: false,
    };
    c.frame_update(&input, 3_000, 20 * S);
    assert_eq!(c.yaw, -15_000);
    assert_eq!(c.distance, 600 * S);
}

#[test]
fn projection_at_zero_angles_stands_on_z_axis() {
    // At yaw 0 and pitch 0 both angles sample to (cos, sin) = (1, 0).
    let mut c = OrbitCamera::default();
    c.focus = Vec3Fx { x: 10 * S, y: 20 * S, z: 30 * S };
    let p = c.camera_position(S, 0, S, 0);
    assert_eq!(p, Vec3Fx { x: 10 * S, y: 20 * S, z: 30 * S + c.distance });
}

#[test]
fn projection_straight_up_follows_pitch_sine() {
    // cos(pitch) = 0, sin(pitch) = 1: the camera hangs straight above.
    let c = OrbitCamera::default();
    let p = c.camera_position(0, S, S, 0);
    assert_eq!(p, Vec3Fx { x: 0, y: c.distance, z: 0 });
}

#[test]
fn rotation_driver_increment() {
    let d = RotatingObject::default();
    assert_eq!(d.speed, 500_000);
    // Half a radian per second for two seconds is one radian.
    assert_eq!(rotation_increment(d.speed, 2 * S), S);
    // A 16 ms frame advances by 0.008 radians.
    assert_eq!(rotation_increment(d.speed, 16_000), 8_000);
}
