use emblem3d::GeometryError;
use emblem3d::mesh::MeshBuffer;
use emblem3d::mesh::ShapeParameters;
use emblem3d::mesh::build_mesh;
use emblem3d::mesh::Vec2Fx;
use emblem3d::mesh::Vec3Fx;
use emblem3d::mesh::create_3d_cylinder_mesh;
use emblem3d::mesh::create_3d_polygon_mesh;
use emblem3d::mesh::create_3d_ring_mesh;
use emblem3d::mesh::create_3d_triangle_mesh;
use emblem3d::mesh::samples_form_loop;

const S: i64 = 1_000_000;

/// The four axis-aligned unit samples plus the duplicated seam sample.
fn axis_samples() -> Vec<Vec2Fx> {
    vec![
        Vec2Fx { x: S, y: 0 },
        Vec2Fx { x: 0, y: S },
        Vec2Fx { x: -S, y: 0 },
        Vec2Fx { x: 0, y: -S },
        Vec2Fx { x: S, y: 0 },
    ]
}

/// Unit-circle samples for `segments` steps, computed in floating point and
/// rounded to fixed point, with the seam sample duplicated.
fn circle_samples(segments: usize) -> Vec<Vec2Fx> {
    let mut out = Vec::new();
    for i in 0..=segments {
        let angle = 2.0 * std::f64::consts::PI * (i % segments) as f64 / segments as f64;
        out.push(Vec2Fx {
            x: (angle.cos() * 1_000_000.0).round() as i64,
            y: (angle.sin() * 1_000_000.0).round() as i64,
        });
    }
    out
}

/// The invariant every builder promises: whole triangles, indices in
/// bounds, one normal per position, unit normals.
fn check_buffer_invariant(m: &MeshBuffer) {
    assert_eq!(m.indices.len() % 3, 0);
    assert_eq!(m.normals.len(), m.positions.len());
    for &ix in &m.indices {
        assert!((ix as usize) < m.positions.len());
    }
    for t in 0..m.indices.len() / 3 {
        let (a, b, c) = (m.indices[3 * t], m.indices[3 * t + 1], m.indices[3 * t + 2]);
        assert!(a != b && a != c && b != c);
    }
    for n in &m.normals {
        assert_eq!(
            (n.x as i128) * (n.x as i128) + (n.y as i128) * (n.y as i128)
                + (n.z as i128) * (n.z as i128),
            (S as i128) * (S as i128)
        );
    }
}

#[test]
fn triangle_prism_shape() {
    let p1 = Vec2Fx { x: 0, y: 0 };
    let p2 = Vec2Fx { x: 10_000_000, y: 0 };
    let p3 = Vec2Fx { x: 0, y: 10_000_000 };
    let m = create_3d_triangle_mesh(p1, p2, p3, 10_000_000);
    check_buffer_invariant(&m);
    assert_eq!(m.positions.len(), 6);
    assert_eq!(m.indices.len(), 24);
    assert_eq!(m.positions[0], Vec3Fx { x: 0, y: 0, z: 5_000_000 });
    assert_eq!(m.positions[1], Vec3Fx { x: 10_000_000, y: 0, z: 5_000_000 });
    assert_eq!(m.positions[4], Vec3Fx { x: 10_000_000, y: 0, z: -5_000_000 });
    assert_eq!(
        m.indices,
        vec![0, 1, 2, 3, 5, 4, 0, 3, 1, 1, 3, 4, 1, 4, 2, 2, 4, 5, 2, 5, 0, 0, 5, 3]
    );
    assert_eq!(m.normals[0], Vec3Fx { x: 0, y: 0, z: S });
    assert_eq!(m.normals[5], Vec3Fx { x: 0, y: 0, z: -S });
}

#[test]
fn polygon_square_shape() {
    let pts = vec![
        Vec2Fx { x: 0, y: 0 },
        Vec2Fx { x: S, y: 0 },
        Vec2Fx { x: S, y: S },
        Vec2Fx { x: 0, y: S },
    ];
    let m = create_3d_polygon_mesh(&pts, 2_000_000).unwrap();
    check_buffer_invariant(&m);
    assert_eq!(m.positions.len(), 8);
    assert_eq!(m.indices.len(), 36);
    // Front cap fan from vertex 0.
    assert_eq!(&m.indices[0..6], &[0, 1, 2, 0, 2, 3]);
    // Back cap fan, wound the other way.
    assert_eq!(&m.indices[6..12], &[4, 6, 5, 4, 7, 6]);
    // First side quad and the wrapping last one.
    assert_eq!(&m.indices[12..18], &[0, 4, 1, 1, 4, 5]);
    assert_eq!(&m.indices[30..36], &[3, 7, 0, 0, 7, 4]);
    // Front vertices at +depth/2, back copies at -depth/2.
    assert_eq!(m.positions[1], Vec3Fx { x: S, y: 0, z: 1_000_000 });
    assert_eq!(m.positions[5], Vec3Fx { x: S, y: 0, z: -1_000_000 });
}

#[test]
fn polygon_with_two_points_fails() {
    let pts = vec![Vec2Fx { x: 0, y: 0 }, Vec2Fx { x: S, y: 0 }];
    let r = create_3d_polygon_mesh(&pts, 10_000_000);
    assert_eq!(r.unwrap_err(), GeometryError::InvalidGeometry);
}

#[test]
fn ring_axis_samples_shape() {
    let samples = axis_samples();
    assert!(samples_form_loop(&samples, 4));
    let m = create_3d_ring_mesh(200_000_000, 170_000_000, 10_000_000, 4, &samples).unwrap();
    check_buffer_invariant(&m);
    assert_eq!(m.positions.len(), 20);
    assert_eq!(m.indices.len(), 96);
    // Slice 0 sits on the +x axis: outer at 200, inner at 170, depth 10.
    assert_eq!(m.positions[0], Vec3Fx { x: 200_000_000, y: 0, z: 5_000_000 });
    assert_eq!(m.positions[1], Vec3Fx { x: 170_000_000, y: 0, z: 5_000_000 });
    assert_eq!(m.positions[2], Vec3Fx { x: 200_000_000, y: 0, z: -5_000_000 });
    assert_eq!(m.positions[3], Vec3Fx { x: 170_000_000, y: 0, z: -5_000_000 });
    // Slice 1 sits on the +y axis.
    assert_eq!(m.positions[4], Vec3Fx { x: 0, y: 200_000_000, z: 5_000_000 });
    // The seam duplicates slice 0.
    assert_eq!(m.positions[16], m.positions[0]);
    // First segment block: front band, back band, outer wall, inner wall.
    assert_eq!(
        &m.indices[0..24],
        &[0, 4, 1, 1, 4, 5, 2, 3, 6, 3, 7, 6, 0, 2, 4, 2, 6, 4, 1, 5, 3, 3, 5, 7]
    );
    // Second segment block is the same pattern shifted by 4.
    assert_eq!(&m.indices[24..30], &[4, 8, 5, 5, 8, 9]);
}

#[test]
fn ring_emblem_dimensions() {
    let samples = circle_samples(64);
    assert!(samples_form_loop(&samples, 64));
    let m = create_3d_ring_mesh(200_000_000, 170_000_000, 10_000_000, 64, &samples).unwrap();
    check_buffer_invariant(&m);
    assert_eq!(m.positions.len(), 260);
    assert_eq!(m.indices.len(), 1536);
    for &ix in &m.indices {
        assert!(ix < 260);
    }
}

#[test]
fn ring_rejects_inner_not_below_outer() {
    let samples = axis_samples();
    let r = create_3d_ring_mesh(170_000_000, 200_000_000, 10_000_000, 4, &samples);
    assert_eq!(r.unwrap_err(), GeometryError::InvalidGeometry);
    let r = create_3d_ring_mesh(200_000_000, 200_000_000, 10_000_000, 4, &samples);
    assert_eq!(r.unwrap_err(), GeometryError::InvalidGeometry);
}

#[test]
fn ring_rejects_too_few_segments() {
    let samples = vec![
        Vec2Fx { x: S, y: 0 },
        Vec2Fx { x: -S, y: 0 },
        Vec2Fx { x: S, y: 0 },
    ];
    let r = create_3d_ring_mesh(200_000_000, 170_000_000, 10_000_000, 2, &samples);
    assert_eq!(r.unwrap_err(), GeometryError::ConfigurationOutOfRange);
}

#[test]
fn cylinder_axis_samples_shape() {
    let samples = axis_samples();
    let m = create_3d_cylinder_mesh(15_000_000, 10_000_000, 4, &samples).unwrap();
    check_buffer_invariant(&m);
    assert_eq!(m.positions.len(), 12);
    assert_eq!(m.indices.len(), 48);
    // Apex vertices front and back.
    assert_eq!(m.positions[0], Vec3Fx { x: 0, y: 0, z: 5_000_000 });
    assert_eq!(m.positions[1], Vec3Fx { x: 0, y: 0, z: -5_000_000 });
    // First rim pair on the +x axis.
    assert_eq!(m.positions[2], Vec3Fx { x: 15_000_000, y: 0, z: 5_000_000 });
    assert_eq!(m.positions[3], Vec3Fx { x: 15_000_000, y: 0, z: -5_000_000 });
    // Front fan, back fan, and side wall of the first segment.
    assert_eq!(&m.indices[0..3], &[0, 2, 4]);
    assert_eq!(&m.indices[12..15], &[1, 5, 3]);
    assert_eq!(&m.indices[24..30], &[2, 3, 4, 3, 5, 4]);
}

#[test]
fn cylinder_rejects_too_few_segments() {
    let samples = vec![
        Vec2Fx { x: S, y: 0 },
        Vec2Fx { x: -S, y: 0 },
        Vec2Fx { x: S, y: 0 },
    ];
    let r = create_3d_cylinder_mesh(15_000_000, 10_000_000, 2, &samples);
    assert_eq!(r.unwrap_err(), GeometryError::ConfigurationOutOfRange);
}

#[test]
fn build_mesh_dispatches_every_variant() {
    let samples = axis_samples();
    let ring = build_mesh(
        &ShapeParameters::Ring {
            outer_radius: 200_000_000,
            inner_radius: 170_000_000,
            depth: 10_000_000,
            segments: 4,
        },
        &samples,
    )
    .unwrap();
    check_buffer_invariant(&ring);
    assert_eq!(ring.positions.len(), 20);

    let cyl = build_mesh(
        &ShapeParameters::Cylinder { radius: 15_000_000, depth: 10_000_000, segments: 4 },
        &samples,
    )
    .unwrap();
    check_buffer_invariant(&cyl);
    assert_eq!(cyl.positions.len(), 12);

    let tri = build_mesh(
        &ShapeParameters::Triangle {
            p1: Vec2Fx { x: 0, y: 0 },
            p2: Vec2Fx { x: S, y: 0 },
            p3: Vec2Fx { x: 0, y: S },
            depth: 2_000_000,
        },
        &samples,
    )
    .unwrap();
    check_buffer_invariant(&tri);
    assert_eq!(tri.positions.len(), 6);

    let poly = build_mesh(
        &ShapeParameters::Polygon {
            points: vec![
                Vec2Fx { x: 0, y: 0 },
                Vec2Fx { x: S, y: 0 },
                Vec2Fx { x: S, y: S },
                Vec2Fx { x: 0, y: S },
            ],
            depth: 2_000_000,
        },
        &samples,
    )
    .unwrap();
    check_buffer_invariant(&poly);
    assert_eq!(poly.positions.len(), 8);

    let bad = build_mesh(
        &ShapeParameters::Polygon { points: vec![Vec2Fx { x: 0, y: 0 }], depth: 2_000_000 },
        &samples,
    );
    assert_eq!(bad.unwrap_err(), GeometryError::InvalidGeometry);
}

#[test]
fn triangle_and_three_point_polygon_agree() {
    // The shared winding convention: a triangular profile through the
    // polygon builder gives the identical buffers.
    let p1 = Vec2Fx { x: 0, y: 0 };
    let p2 = Vec2Fx { x: 10_000_000, y: 0 };
    let p3 = Vec2Fx { x: 0, y: 10_000_000 };
    let tri = create_3d_triangle_mesh(p1, p2, p3, 10_000_000);
    let poly = create_3d_polygon_mesh(&vec![p1, p2, p3], 10_000_000).unwrap();
    assert_eq!(tri.positions, poly.positions);
    assert_eq!(tri.normals, poly.normals);
    assert_eq!(tri.indices, poly.indices);
}

#[test]
fn sample_loop_check_rejects_bad_tables() {
    // Wrong length.
    assert!(!samples_form_loop(&axis_samples(), 5));
    // Component outside the unit range.
    let mut bad = axis_samples();
    bad[1] = Vec2Fx { x: S + 1, y: 0 };
    assert!(!samples_form_loop(&bad, 4));
    // Open seam.
    let mut open = axis_samples();
    open[4] = Vec2Fx { x: 0, y: S };
    assert!(!samples_form_loop(&open, 4));
}
