use emblem3d::GeometryError;
use emblem3d::config::EmblemConfig;
use emblem3d::config::validate_config;
use emblem3d::emblem::get_all_r_parts;
use emblem3d::fixed::degrees_to_radians;
use emblem3d::fixed::fx_mul;
use emblem3d::layout::calculate_exterior_triangle_points;
use emblem3d::layout::calculate_interior_triangle_points;
use emblem3d::layout::calculate_triangle_centroid;
use emblem3d::layout::triangle_base_angles;
use emblem3d::mesh::Vec2Fx;

const S: i64 = 1_000_000;

#[test]
fn degrees_to_radians_landmarks() {
    // 180 degrees is exactly the fixed-point pi.
    assert_eq!(degrees_to_radians(180 * S), 3_141_593);
    // 90 degrees truncates to half of it.
    assert_eq!(degrees_to_radians(90 * S), 1_570_796);
    // The default camera elevation.
    assert_eq!(degrees_to_radians(25 * S), 436_332);
    assert_eq!(degrees_to_radians(0), 0);
    assert_eq!(degrees_to_radians(-180 * S), -3_141_593);
}

#[test]
fn fixed_multiply_truncates_toward_zero() {
    assert_eq!(fx_mul(5 * S, 500_000), 2_500_000);
    assert_eq!(fx_mul(-5 * S, 500_000), -2_500_000);
    assert_eq!(fx_mul(1, 500_000), 0);
    assert_eq!(fx_mul(-1, 500_000), 0);
}

#[test]
fn base_angles_use_chord_approximation() {
    // half side 12.5 over radius 200 is 0.0625 radians to each side.
    let (a1, a2) = triangle_base_angles(0, 200 * S, 25 * S);
    assert_eq!(a1, -62_500);
    assert_eq!(a2, 62_500);
    // The delta rides on top of a non-zero base angle.
    let (b1, b2) = triangle_base_angles(1_000_000, 200 * S, 25 * S);
    assert_eq!(b1, 937_500);
    assert_eq!(b2, 1_062_500);
}

#[test]
fn exterior_triangle_apex_sits_outside() {
    let east = Vec2Fx { x: S, y: 0 };
    let (p1, p2, p3) = calculate_exterior_triangle_points(200 * S, 25 * S, east, east, east);
    // Base corners on the circle.
    assert_eq!(p1, Vec2Fx { x: 200 * S, y: 0 });
    assert_eq!(p2, Vec2Fx { x: 200 * S, y: 0 });
    // Apex displaced outward by side * sqrt(3)/2 = 25 * 0.866025.
    assert_eq!(p3, Vec2Fx { x: 200 * S + 21_650_625, y: 0 });
}

#[test]
fn interior_triangle_apex_sits_inside() {
    let north = Vec2Fx { x: 0, y: S };
    let (p1, _p2, p3) = calculate_interior_triangle_points(170 * S, 80 * S, north, north, north);
    assert_eq!(p1, Vec2Fx { x: 0, y: 170 * S });
    // Apex displaced inward by 80 * 0.866025 = 69.282.
    assert_eq!(p3, Vec2Fx { x: 0, y: 170 * S - 69_282_000 });
}

#[test]
fn centroid_is_arithmetic_mean() {
    let c = calculate_triangle_centroid(
        Vec2Fx { x: 1 * S, y: 2 * S },
        Vec2Fx { x: 2 * S, y: 4 * S },
        Vec2Fx { x: 6 * S, y: 9 * S },
    );
    assert_eq!(c, Vec2Fx { x: 3 * S, y: 5 * S });
    // Truncation toward zero on both signs.
    let d = calculate_triangle_centroid(
        Vec2Fx { x: 1, y: -1 },
        Vec2Fx { x: 1, y: -1 },
        Vec2Fx { x: -1, y: 1 },
    );
    assert_eq!(d, Vec2Fx { x: 0, y: 0 });
}

#[test]
fn r_parts_enumerate_the_letter() {
    let parts = get_all_r_parts();
    assert_eq!(parts.len(), 8);
    let counts: Vec<usize> = parts.iter().map(|p| p.points.len()).collect();
    assert_eq!(counts, vec![4, 4, 5, 4, 5, 4, 4, 4]);
    for part in &parts {
        assert!(part.points.len() >= 3);
        assert!(!part.name.is_empty());
    }
    assert_eq!(parts[0].name, "Haut du R");
    assert_eq!(parts[0].points[0], Vec2Fx { x: -140 * S, y: 90 * S });
    assert_eq!(parts[7].points[3], Vec2Fx { x: 120 * S, y: -80 * S });
}

#[test]
fn default_config_matches_the_design() {
    let c = EmblemConfig::default();
    assert_eq!(c.circle_radius, 200 * S);
    assert_eq!(c.circle_thickness, 30 * S);
    assert_eq!(c.circle_segments, 64);
    assert_eq!(c.exterior_triangle_count, 36);
    assert_eq!(c.small_triangle_side, 25 * S);
    assert_eq!(c.interior_triangle_count, 5);
    assert_eq!(c.large_triangle_side, 80 * S);
    assert_eq!(c.small_circle_radius, 15 * S);
    assert_eq!(c.small_circle_segments, 32);
    assert_eq!(c.depth, 10 * S);
    assert!(validate_config(&c).is_ok());
}

#[test]
fn config_rejects_empty_zoom_interval() {
    let mut c = EmblemConfig::default();
    c.min_distance = c.max_distance;
    assert_eq!(validate_config(&c).unwrap_err(), GeometryError::ConfigurationOutOfRange);
}

#[test]
fn config_rejects_zero_segments() {
    let mut c = EmblemConfig::default();
    c.circle_segments = 0;
    assert_eq!(validate_config(&c).unwrap_err(), GeometryError::ConfigurationOutOfRange);
    let mut c2 = EmblemConfig::default();
    c2.small_circle_segments = 0;
    assert_eq!(validate_config(&c2).unwrap_err(), GeometryError::ConfigurationOutOfRange);
}
