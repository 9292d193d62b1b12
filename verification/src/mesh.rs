//! Mesh builders: pure functions turning shape parameters into vertex,
//! normal and triangle-index buffers.
//!
//! Every builder extrudes a flat two-dimensional profile along the z axis:
//! a front cap at `z = depth / 2`, a back cap at `z = -depth / 2`, and side
//! walls connecting the two. Cap normals point along `+z` (front) and `-z`
//! (back); side-wall triangles reuse the cap vertices, as flat shading
//! derives their face normals from the winding alone. All four builders
//! share one winding convention, so a renderer's backface culling behaves
//! uniformly: every triangle runs counterclockwise as seen from its outward
//! side — cap triangles from the side their normal points to, side-wall
//! triangles from outside the solid — provided the profile runs
//! counterclockwise (for the circular shapes, samples in increasing-angle
//! order). A triangular profile and the three-point polygon produce the
//! identical index list.
//!
//! Shapes with a circular profile take a closed loop of unit-circle samples
//! (cosine/sine pairs in fixed point) for their `segments + 1` evenly spaced
//! angles; the caller computes those with whatever trigonometry it has, and
//! [`samples_form_loop`] checks the shape of the table at run time.

use vstd::prelude::*;

use crate::GeometryError;
use crate::fixed::COORD_LIMIT;
use crate::fixed::SCALE;
use crate::fixed::fx_mul;
use crate::fixed::mul_scaled;

verus! {

/// A two-dimensional point or direction in fixed-point coordinates.
#[derive(Clone, Copy, PartialEq, Eq, Structural, Debug)]
pub struct Vec2Fx {
    pub x: i64,
    pub y: i64,
}

/// A three-dimensional point or direction in fixed-point coordinates.
#[derive(Clone, Copy, PartialEq, Eq, Structural, Debug)]
pub struct Vec3Fx {
    pub x: i64,
    pub y: i64,
    pub z: i64,
}

impl View for Vec2Fx {
    type V = (int, int);

    open spec fn view(&self) -> (int, int) {
        (self.x as int, self.y as int)
    }
}

impl View for Vec3Fx {
    type V = (int, int, int);

    open spec fn view(&self) -> (int, int, int) {
        (self.x as int, self.y as int, self.z as int)
    }
}

/// Geometry buffers for one shape: positions, index-aligned normals, and a
/// triangle list of indices into the positions.
#[derive(Debug)]
pub struct MeshBuffer {
    pub positions: Vec<Vec3Fx>,
    pub normals: Vec<Vec3Fx>,
    pub indices: Vec<u32>,
}

/// A unit vector: its squared fixed-point length is exactly 1.0 squared.
pub open spec fn is_unit_normal(n: (int, int, int)) -> bool {
    n.0 * n.0 + n.1 * n.1 + n.2 * n.2 == (SCALE as int) * (SCALE as int)
}

/// The three indices of triangle `t` are pairwise distinct.
pub open spec fn tri_distinct_at(indices: Seq<u32>, t: int) -> bool {
    &&& indices[3 * t] != indices[3 * t + 1]
    &&& indices[3 * t] != indices[3 * t + 2]
    &&& indices[3 * t + 1] != indices[3 * t + 2]
}

/// A well-formed triangle list over `num_pos` vertices: a whole number of
/// triangles, every index in bounds, and no degenerate triangle.
pub open spec fn indices_wf(indices: Seq<u32>, num_pos: int) -> bool {
    &&& indices.len() % 3 == 0
    &&& forall|k: int| 0 <= k < indices.len() ==> (indices[k] as int) < num_pos
    &&& forall|t: int| 0 <= t < indices.len() / 3 ==> tri_distinct_at(indices, t)
}

impl MeshBuffer {
    /// Position `k`, as a mathematical point.
    pub open spec fn pos(self, k: int) -> (int, int, int) {
        self.positions@[k]@
    }

    /// Normal `k`, as a mathematical vector.
    pub open spec fn nrm(self, k: int) -> (int, int, int) {
        self.normals@[k]@
    }

    /// Index `k` of the triangle list, as a mathematical integer.
    pub open spec fn idx(self, k: int) -> int {
        self.indices@[k] as int
    }

    /// The invariant every builder establishes: one normal per position,
    /// a well-formed triangle list, and unit-length normals.
    pub open spec fn wf(self) -> bool {
        &&& self.normals@.len() == self.positions@.len()
        &&& indices_wf(self.indices@, self.positions@.len() as int)
        &&& forall|k: int| 0 <= k < self.normals@.len() ==> is_unit_normal(self.nrm(k))
    }
}

/// For every valid shape, the returned buffer has an index count divisible
/// by three, every index below the position count, exactly one normal per
/// position, and unit-length normals.
pub proof fn lemma_mesh_buffer_invariant(m: MeshBuffer)
    requires
        m.wf(),
    ensures
        m.indices@.len() % 3 == 0,
        forall|k: int| 0 <= k < m.indices@.len() ==> m.idx(k) < m.positions@.len(),
        m.normals@.len() == m.positions@.len(),
        forall|k: int| 0 <= k < m.normals@.len() ==> is_unit_normal(m.nrm(k)),
        forall|t: int| 0 <= t < m.indices@.len() / 3 ==> tri_distinct_at(m.indices@, t),
{
}

/// The front-cap normal, `+z` with unit length.
pub open spec fn front_normal() -> (int, int, int) {
    (0int, 0int, SCALE as int)
}

/// The back-cap normal, `-z` with unit length.
pub open spec fn back_normal() -> (int, int, int) {
    (0int, 0int, -(SCALE as int))
}

/// Both cap normals have unit length.
pub proof fn lemma_axis_normals_unit()
    ensures
        is_unit_normal(front_normal()),
        is_unit_normal(back_normal()),
{
    assert((-(SCALE as int)) * (-(SCALE as int)) == (SCALE as int) * (SCALE as int))
        by (nonlinear_arith);
}

/// Whether `samples` is a closed loop of `segments + 1` unit-circle samples:
/// one cosine/sine pair per angle step, each component within one unit, and
/// the last sample repeating the first so the seam closes exactly.
pub open spec fn valid_loop_samples(samples: Seq<Vec2Fx>, segments: int) -> bool {
    &&& samples.len() == segments + 1
    &&& forall|i: int|
        0 <= i < samples.len() ==> -(SCALE as int) <= #[trigger] samples[i].x <= SCALE as int
            && -(SCALE as int) <= samples[i].y <= SCALE as int
    &&& samples[segments] == samples[0]
}

/// Run-time check of [`valid_loop_samples`], for callers that obtain their
/// trigonometric samples from unverified code.
pub fn samples_form_loop(samples: &Vec<Vec2Fx>, segments: usize) -> (r: bool)
    ensures
        r == valid_loop_samples(samples@, segments as int),
{
    if samples.len() == 0 || samples.len() - 1 != segments {
        return false;
    }
    let mut i: usize = 0;
    while i < samples.len()
        invariant
            i <= samples@.len(),
            samples@.len() == segments + 1,
            forall|k: int|
                0 <= k < i ==> -(SCALE as int) <= #[trigger] samples@[k].x <= SCALE as int
                    && -(SCALE as int) <= samples@[k].y <= SCALE as int,
        decreases samples@.len() - i,
    {
        let s = samples[i];
        if s.x < -SCALE || s.x > SCALE || s.y < -SCALE || s.y > SCALE {
            return false;
        }
        i += 1;
    }
    let first = samples[0];
    let last = samples[segments];
    first.x == last.x && first.y == last.y
}

/// The whole contract of [`create_3d_triangle_mesh`]: three front corners
/// at `z = half`, their back copies at `z = -half`, cap normals, and the
/// literal index list of two cap triangles plus three side quads.
pub open spec fn triangle_mesh_ok(
    m: MeshBuffer,
    p1: Vec2Fx,
    p2: Vec2Fx,
    p3: Vec2Fx,
    half: int,
) -> bool {
    &&& m.wf()
    &&& m.positions@.len() == 6
    &&& m.normals@.len() == 6
    &&& m.indices@.len() == 24
    &&& m.pos(0) == (p1.x as int, p1.y as int, half)
    &&& m.pos(1) == (p2.x as int, p2.y as int, half)
    &&& m.pos(2) == (p3.x as int, p3.y as int, half)
    &&& m.pos(3) == (p1.x as int, p1.y as int, -half)
    &&& m.pos(4) == (p2.x as int, p2.y as int, -half)
    &&& m.pos(5) == (p3.x as int, p3.y as int, -half)
    &&& forall|k: int| 0 <= k < 3 ==> m.nrm(k) == front_normal()
    &&& forall|k: int| 3 <= k < 6 ==> m.nrm(k) == back_normal()
    &&& m.indices@ == seq![
        0u32, 1, 2,
        3, 5, 4,
        0, 3, 1,
        1, 3, 4,
        1, 4, 2,
        2, 4, 5,
        2, 5, 0,
        0, 5, 3,
    ]
}

/// Creates a triangular prism: the three profile points extruded by `depth`,
/// with two cap triangles and three side-wall quads split into six
/// triangles. This is the minimal case of the general polygon extrusion,
/// kept separate for its literal index list.
pub fn create_3d_triangle_mesh(p1: Vec2Fx, p2: Vec2Fx, p3: Vec2Fx, depth: i64) -> (m: MeshBuffer)
    requires
        0 <= depth,
    ensures
        triangle_mesh_ok(m, p1, p2, p3, depth as int / 2),
{
    let half: i64 = ((depth as u64) / 2) as i64;
    let neg_half: i64 = -half;

    let mut positions: Vec<Vec3Fx> = Vec::new();
    positions.push(Vec3Fx { x: p1.x, y: p1.y, z: half });
    positions.push(Vec3Fx { x: p2.x, y: p2.y, z: half });
    positions.push(Vec3Fx { x: p3.x, y: p3.y, z: half });
    positions.push(Vec3Fx { x: p1.x, y: p1.y, z: neg_half });
    positions.push(Vec3Fx { x: p2.x, y: p2.y, z: neg_half });
    positions.push(Vec3Fx { x: p3.x, y: p3.y, z: neg_half });

    let mut normals: Vec<Vec3Fx> = Vec::new();
    normals.push(Vec3Fx { x: 0, y: 0, z: SCALE });
    normals.push(Vec3Fx { x: 0, y: 0, z: SCALE });
    normals.push(Vec3Fx { x: 0, y: 0, z: SCALE });
    normals.push(Vec3Fx { x: 0, y: 0, z: -SCALE });
    normals.push(Vec3Fx { x: 0, y: 0, z: -SCALE });
    normals.push(Vec3Fx { x: 0, y: 0, z: -SCALE });

    let mut indices: Vec<u32> = Vec::new();
    // Front cap.
    indices.push(0);
    indices.push(1);
    indices.push(2);
    // Back cap, wound the other way so it faces -z.
    indices.push(3);
    indices.push(5);
    indices.push(4);
    // Side wall between p1 and p2.
    indices.push(0);
    indices.push(3);
    indices.push(1);
    indices.push(1);
    indices.push(3);
    indices.push(4);
    // Side wall between p2 and p3.
    indices.push(1);
    indices.push(4);
    indices.push(2);
    indices.push(2);
    indices.push(4);
    indices.push(5);
    // Side wall between p3 and p1.
    indices.push(2);
    indices.push(5);
    indices.push(0);
    indices.push(0);
    indices.push(5);
    indices.push(3);

    let m = MeshBuffer { positions, normals, indices };
    proof {
        assert(m.indices@.len() == 24);
        assert(m.positions@.len() == 6);
        assert(m.normals@.len() == 6);
        assert(m.indices@.len() % 3 == 0);
        assert forall|k: int| 0 <= k < m.indices@.len() implies (m.indices@[k] as int) < 6 by {
            assert(0 <= k < 24);
        }
        assert forall|t: int| 0 <= t < m.indices@.len() / 3 implies tri_distinct_at(
            m.indices@,
            t,
        ) by {
            assert(0 <= t < 8);
            assert(0 <= 3 * t && 3 * t + 2 < 24);
        }
        lemma_axis_normals_unit();
        assert forall|k: int| 0 <= k < m.normals@.len() implies is_unit_normal(m.nrm(k)) by {
            assert(0 <= k < 6);
            assert(m.nrm(k) == front_normal() || m.nrm(k) == back_normal());
        }
        assert(m.indices@ =~= seq![
            0u32, 1, 2,
            3, 5, 4,
            0, 3, 1,
            1, 3, 4,
            1, 4, 2,
            2, 4, 5,
            2, 5, 0,
            0, 5, 3,
        ]);
    }
    m
}

/// The side wall of polygon edge `i`: a quad of two triangles connecting
/// front vertex `i` to its successor around the loop (wrapping from the last
/// point back to point zero) and to their back copies at offset `n`.
pub open spec fn polygon_side_ok(m: MeshBuffer, n: int, i: int) -> bool {
    let base = 6 * (n - 2) + 6 * i;
    let next = (i + 1) % n;
    &&& m.idx(base) == i
    &&& m.idx(base + 1) == i + n
    &&& m.idx(base + 2) == next
    &&& m.idx(base + 3) == next
    &&& m.idx(base + 4) == i + n
    &&& m.idx(base + 5) == next + n
}

/// The whole contract of [`create_3d_polygon_mesh`] on success: front
/// vertices copy the profile at `z = half`, back vertices at `z = -half`,
/// both caps are fan-triangulated from vertex 0 (back cap wound the other
/// way), and one side quad stands per edge of the loop.
pub open spec fn polygon_mesh_ok(m: MeshBuffer, pts: Seq<Vec2Fx>, half: int) -> bool {
    let n = pts.len() as int;
    &&& m.wf()
    &&& m.positions@.len() == 2 * n
    &&& m.normals@.len() == 2 * n
    &&& m.indices@.len() == 12 * n - 12
    &&& forall|k: int|
        0 <= k < n ==> #[trigger] m.pos(k) == (pts[k].x as int, pts[k].y as int, half)
    &&& forall|k: int|
        0 <= k < n ==> #[trigger] m.pos(n + k) == (pts[k].x as int, pts[k].y as int, -half)
    &&& forall|k: int| 0 <= k < n ==> #[trigger] m.nrm(k) == front_normal()
    &&& forall|k: int| 0 <= k < n ==> #[trigger] m.nrm(n + k) == back_normal()
    &&& forall|i: int|
        1 <= i <= n - 2 ==> #[trigger] m.idx(3 * (i - 1)) == 0 && m.idx(3 * (i - 1) + 1) == i
            && m.idx(3 * (i - 1) + 2) == i + 1
    &&& forall|i: int|
        1 <= i <= n - 2 ==> #[trigger] m.idx(3 * (n - 2) + 3 * (i - 1)) == n && m.idx(
            3 * (n - 2) + 3 * (i - 1) + 1,
        ) == n + i + 1 && m.idx(3 * (n - 2) + 3 * (i - 1) + 2) == n + i
    &&& forall|i: int| 0 <= i < n ==> #[trigger] polygon_side_ok(m, n, i)
}

/// Creates an extruded polygon from at least three profile points. The caps
/// are fan-triangulated from vertex 0, which is geometrically correct only
/// for a convex profile; for non-convex input the topology below still holds
/// but cap triangles may overlap the outside of the profile.
pub fn create_3d_polygon_mesh(points: &Vec<Vec2Fx>, depth: i64) -> (r: Result<
    MeshBuffer,
    GeometryError,
>)
    requires
        0 <= depth,
        points@.len() <= 1_000_000,
    ensures
        r is Err <==> points@.len() < 3,
        r is Err ==> r == Err::<MeshBuffer, GeometryError>(GeometryError::InvalidGeometry),
        r matches Ok(m) ==> polygon_mesh_ok(m, points@, depth as int / 2),
{
    let n: usize = points.len();
    if n < 3 {
        return Err(GeometryError::InvalidGeometry);
    }
    let half: i64 = ((depth as u64) / 2) as i64;
    let neg_half: i64 = -half;

    let mut positions: Vec<Vec3Fx> = Vec::new();
    let mut normals: Vec<Vec3Fx> = Vec::new();

    // Front-cap vertices.
    let mut k: usize = 0;
    while k < n
        invariant
            k <= n,
            n == points@.len(),
            positions@.len() == k,
            normals@.len() == k,
            forall|j: int|
                0 <= j < k ==> #[trigger] positions@[j]@ == (
                    points@[j].x as int,
                    points@[j].y as int,
                    half as int,
                ),
            forall|j: int| 0 <= j < k ==> #[trigger] normals@[j]@ == front_normal(),
        decreases n - k,
    {
        let p = points[k];
        positions.push(Vec3Fx { x: p.x, y: p.y, z: half });
        normals.push(Vec3Fx { x: 0, y: 0, z: SCALE });
        k += 1;
    }

    // Back-cap vertices.
    let mut k: usize = 0;
    while k < n
        invariant
            k <= n,
            n == points@.len(),
            positions@.len() == n + k,
            normals@.len() == n + k,
            forall|j: int|
                0 <= j < n ==> #[trigger] positions@[j]@ == (
                    points@[j].x as int,
                    points@[j].y as int,
                    half as int,
                ),
            forall|j: int| 0 <= j < n ==> #[trigger] normals@[j]@ == front_normal(),
            forall|j: int|
                0 <= j < k ==> #[trigger] positions@[n + j]@ == (
                    points@[j].x as int,
                    points@[j].y as int,
                    neg_half as int,
                ),
            forall|j: int| 0 <= j < k ==> #[trigger] normals@[n + j]@ == back_normal(),
            neg_half == -half,
        decreases n - k,
    {
        let p = points[k];
        positions.push(Vec3Fx { x: p.x, y: p.y, z: neg_half });
        normals.push(Vec3Fx { x: 0, y: 0, z: -SCALE });
        k += 1;
    }

    let mut indices: Vec<u32> = Vec::new();
    let n32: u32 = n as u32;

    // Front-cap fan from vertex 0.
    let mut i: usize = 1;
    while i < n - 1
        invariant
            1 <= i <= n - 1,
            3 <= n <= 1_000_000,
            n32 == n,
            indices@.len() == 3 * (i - 1),
            forall|i2: int|
                1 <= i2 < i ==> #[trigger] (indices@[3 * (i2 - 1)] as int) == 0 && (indices@[3 * (
                i2 - 1) + 1] as int) == i2 && (indices@[3 * (i2 - 1) + 2] as int) == i2 + 1,
            forall|j: int| 0 <= j < indices@.len() ==> (indices@[j] as int) < 2 * n,
            forall|t: int| 0 <= t < indices@.len() / 3 ==> tri_distinct_at(indices@, t),
        decreases n - 1 - i,
    {
        let ghost pre = indices@;
        indices.push(0);
        indices.push(i as u32);
        indices.push((i + 1) as u32);
        proof {
            let base = 3 * (i as int - 1);
            assert(indices@.len() == base + 3);
            assert((indices@[base] as int) == 0);
            assert((indices@[base + 1] as int) == i as int);
            assert((indices@[base + 2] as int) == i as int + 1);
            assert forall|j: int| 0 <= j < pre.len() implies indices@[j] == pre[j] by {}
            assert forall|i2: int|
                1 <= i2 < i + 1 implies #[trigger] (indices@[3 * (i2 - 1)] as int) == 0 && (
            indices@[3 * (i2 - 1) + 1] as int) == i2 && (indices@[3 * (i2 - 1) + 2] as int) == i2
                + 1 by {
                if i2 < i {
                    assert((pre[3 * (i2 - 1)] as int) == 0);
                    assert(indices@[3 * (i2 - 1)] == pre[3 * (i2 - 1)]);
                    assert(indices@[3 * (i2 - 1) + 1] == pre[3 * (i2 - 1) + 1]);
                    assert(indices@[3 * (i2 - 1) + 2] == pre[3 * (i2 - 1) + 2]);
                }
            }
            vstd::arithmetic::div_mod::lemma_div_multiples_vanish(i as int, 3);
            vstd::arithmetic::div_mod::lemma_div_multiples_vanish(i as int - 1, 3);
            assert(indices@.len() / 3 == i as int);
            assert(pre.len() / 3 == i as int - 1);
            assert forall|t: int| 0 <= t < indices@.len() / 3 implies tri_distinct_at(
                indices@,
                t,
            ) by {
                if t < i as int - 1 {
                    assert(tri_distinct_at(pre, t));
                    assert(indices@[3 * t] == pre[3 * t]);
                    assert(indices@[3 * t + 1] == pre[3 * t + 1]);
                    assert(indices@[3 * t + 2] == pre[3 * t + 2]);
                } else {
                    assert(3 * t == base);
                }
            }
        }
        i += 1;
    }

    // Back-cap fan, wound the other way.
    let mut i: usize = 1;
    while i < n - 1
        invariant
            1 <= i <= n - 1,
            3 <= n <= 1_000_000,
            n32 == n,
            indices@.len() == 3 * (n - 2) + 3 * (i - 1),
            forall|i2: int|
                1 <= i2 <= n - 2 ==> #[trigger] (indices@[3 * (i2 - 1)] as int) == 0 && (
                indices@[3 * (i2 - 1) + 1] as int) == i2 && (indices@[3 * (i2 - 1) + 2] as int)
                    == i2 + 1,
            forall|i2: int|
                1 <= i2 < i ==> #[trigger] (indices@[3 * (n - 2) + 3 * (i2 - 1)] as int) == n && (
                indices@[3 * (n - 2) + 3 * (i2 - 1) + 1] as int) == n + i2 + 1 && (indices@[3 * (n
                    - 2) + 3 * (i2 - 1) + 2] as int) == n + i2,
            forall|j: int| 0 <= j < indices@.len() ==> (indices@[j] as int) < 2 * n,
            forall|t: int| 0 <= t < indices@.len() / 3 ==> tri_distinct_at(indices@, t),
        decreases n - 1 - i,
    {
        let ghost pre = indices@;
        indices.push(n32);
        indices.push(n32 + (i as u32) + 1);
        indices.push(n32 + (i as u32));
        proof {
            let base = 3 * (n as int - 2) + 3 * (i as int - 1);
            assert(indices@.len() == base + 3);
            assert((indices@[base] as int) == n as int);
            assert((indices@[base + 1] as int) == n as int + i as int + 1);
            assert((indices@[base + 2] as int) == n as int + i as int);
            assert forall|j: int| 0 <= j < pre.len() implies indices@[j] == pre[j] by {}
            assert forall|i2: int|
                1 <= i2 <= n as int - 2 implies #[trigger] (indices@[3 * (i2 - 1)] as int) == 0 && (
            indices@[3 * (i2 - 1) + 1] as int) == i2 && (indices@[3 * (i2 - 1) + 2] as int) == i2
                + 1 by {
                assert((pre[3 * (i2 - 1)] as int) == 0);
                assert(indices@[3 * (i2 - 1)] == pre[3 * (i2 - 1)]);
                assert(indices@[3 * (i2 - 1) + 1] == pre[3 * (i2 - 1) + 1]);
                assert(indices@[3 * (i2 - 1) + 2] == pre[3 * (i2 - 1) + 2]);
            }
            assert forall|i2: int|
                1 <= i2 < i + 1 implies #[trigger] (indices@[3 * (n - 2) + 3 * (i2 - 1)] as int)
                    == n && (indices@[3 * (n - 2) + 3 * (i2 - 1) + 1] as int) == n + i2 + 1 && (
            indices@[3 * (n - 2) + 3 * (i2 - 1) + 2] as int) == n + i2 by {
                if i2 < i {
                    assert((pre[3 * (n - 2) + 3 * (i2 - 1)] as int) == n);
                    assert(indices@[3 * (n - 2) + 3 * (i2 - 1)] == pre[3 * (n - 2) + 3 * (i2
                        - 1)]);
                    assert(indices@[3 * (n - 2) + 3 * (i2 - 1) + 1] == pre[3 * (n - 2) + 3 * (i2
                        - 1) + 1]);
                    assert(indices@[3 * (n - 2) + 3 * (i2 - 1) + 2] == pre[3 * (n - 2) + 3 * (i2
                        - 1) + 2]);
                }
            }
            vstd::arithmetic::div_mod::lemma_div_multiples_vanish(n as int - 2 + i as int, 3);
            vstd::arithmetic::div_mod::lemma_div_multiples_vanish(n as int - 2 + i as int - 1, 3);
            assert(indices@.len() / 3 == n as int - 2 + i as int);
            assert(pre.len() / 3 == n as int - 2 + i as int - 1);
            assert forall|t: int| 0 <= t < indices@.len() / 3 implies tri_distinct_at(
                indices@,
                t,
            ) by {
                if t < n as int - 2 + i as int - 1 {
                    assert(tri_distinct_at(pre, t));
                    assert(indices@[3 * t] == pre[3 * t]);
                    assert(indices@[3 * t + 1] == pre[3 * t + 1]);
                    assert(indices@[3 * t + 2] == pre[3 * t + 2]);
                } else {
                    assert(3 * t == base);
                }
            }
        }
        i += 1;
    }

    // Side walls, one quad per edge, wrapping from the last point back to 0.
    let mut i: usize = 0;
    while i < n
        invariant
            0 <= i <= n,
            3 <= n <= 1_000_000,
            n32 == n,
            indices@.len() == 6 * (n - 2) + 6 * i,
            forall|i2: int|
                1 <= i2 <= n - 2 ==> #[trigger] (indices@[3 * (i2 - 1)] as int) == 0 && (
                indices@[3 * (i2 - 1) + 1] as int) == i2 && (indices@[3 * (i2 - 1) + 2] as int)
                    == i2 + 1,
            forall|i2: int|
                1 <= i2 <= n - 2 ==> #[trigger] (indices@[3 * (n - 2) + 3 * (i2 - 1)] as int) == n
                    && (indices@[3 * (n - 2) + 3 * (i2 - 1) + 1] as int) == n + i2 + 1 && (
                indices@[3 * (n - 2) + 3 * (i2 - 1) + 2] as int) == n + i2,
            forall|i2: int|
                0 <= i2 < i ==> #[trigger] (indices@[6 * (n - 2) + 6 * i2] as int) == i2 && (
                indices@[6 * (n - 2) + 6 * i2 + 1] as int) == i2 + n && (indices@[6 * (n - 2) + 6
                    * i2 + 2] as int) == (i2 + 1) % (n as int) && (indices@[6 * (n - 2) + 6 * i2
                    + 3] as int) == (i2 + 1) % (n as int) && (indices@[6 * (n - 2) + 6 * i2
                    + 4] as int) == i2 + n && (indices@[6 * (n - 2) + 6 * i2 + 5] as int) == (i2
                    + 1) % (n as int) + n,
            forall|j: int| 0 <= j < indices@.len() ==> (indices@[j] as int) < 2 * n,
            forall|t: int| 0 <= t < indices@.len() / 3 ==> tri_distinct_at(indices@, t),
        decreases n - i,
    {
        let next: usize = (i + 1) % n;
        proof {
            if i + 1 < n {
                vstd::arithmetic::div_mod::lemma_small_mod((i + 1) as nat, n as nat);
            } else {
                vstd::arithmetic::div_mod::lemma_mod_self_0(n as int);
            }
            assert((i + 1) % (n as int) == if i + 1 < n {
                i as int + 1
            } else {
                0int
            });
            assert(next != i);
        }
        let ghost pre = indices@;
        indices.push(i as u32);
        indices.push((i + n) as u32);
        indices.push(next as u32);
        indices.push(next as u32);
        indices.push((i + n) as u32);
        indices.push((next + n) as u32);
        proof {
            let base = 6 * (n as int - 2) + 6 * (i as int);
            assert(indices@.len() == base + 6);
            assert((indices@[base] as int) == i as int);
            assert((indices@[base + 1] as int) == i as int + n as int);
            assert((indices@[base + 2] as int) == (i as int + 1) % (n as int));
            assert((indices@[base + 3] as int) == (i as int + 1) % (n as int));
            assert((indices@[base + 4] as int) == i as int + n as int);
            assert((indices@[base + 5] as int) == (i as int + 1) % (n as int) + n as int);
            assert forall|j: int| 0 <= j < pre.len() implies indices@[j] == pre[j] by {}
            assert forall|i2: int|
                1 <= i2 <= n as int - 2 implies #[trigger] (indices@[3 * (i2 - 1)] as int) == 0 && (
            indices@[3 * (i2 - 1) + 1] as int) == i2 && (indices@[3 * (i2 - 1) + 2] as int) == i2
                + 1 by {
                assert((pre[3 * (i2 - 1)] as int) == 0);
                assert(indices@[3 * (i2 - 1)] == pre[3 * (i2 - 1)]);
                assert(indices@[3 * (i2 - 1) + 1] == pre[3 * (i2 - 1) + 1]);
                assert(indices@[3 * (i2 - 1) + 2] == pre[3 * (i2 - 1) + 2]);
            }
            assert forall|i2: int|
                1 <= i2 <= n as int - 2 implies #[trigger] (indices@[3 * (n - 2) + 3 * (i2
                - 1)] as int) == n && (indices@[3 * (n - 2) + 3 * (i2 - 1) + 1] as int) == n + i2
                + 1 && (indices@[3 * (n - 2) + 3 * (i2 - 1) + 2] as int) == n + i2 by {
                assert((pre[3 * (n - 2) + 3 * (i2 - 1)] as int) == n);
                assert(indices@[3 * (n - 2) + 3 * (i2 - 1)] == pre[3 * (n - 2) + 3 * (i2 - 1)]);
                assert(indices@[3 * (n - 2) + 3 * (i2 - 1) + 1] == pre[3 * (n - 2) + 3 * (i2 - 1)
                    + 1]);
                assert(indices@[3 * (n - 2) + 3 * (i2 - 1) + 2] == pre[3 * (n - 2) + 3 * (i2 - 1)
                    + 2]);
            }
            assert forall|i2: int|
                0 <= i2 < i + 1 implies #[trigger] (indices@[6 * (n - 2) + 6 * i2] as int) == i2
                    && (indices@[6 * (n - 2) + 6 * i2 + 1] as int) == i2 + n && (indices@[6 * (n
                    - 2) + 6 * i2 + 2] as int) == (i2 + 1) % (n as int) && (indices@[6 * (n - 2) + 6
                    * i2 + 3] as int) == (i2 + 1) % (n as int) && (indices@[6 * (n - 2) + 6 * i2
                    + 4] as int) == i2 + n && (indices@[6 * (n - 2) + 6 * i2 + 5] as int) == (i2
                    + 1) % (n as int) + n by {
                if i2 < i {
                    assert((pre[6 * (n - 2) + 6 * i2] as int) == i2);
                    assert(indices@[6 * (n - 2) + 6 * i2] == pre[6 * (n - 2) + 6 * i2]);
                    assert(indices@[6 * (n - 2) + 6 * i2 + 1] == pre[6 * (n - 2) + 6 * i2 + 1]);
                    assert(indices@[6 * (n - 2) + 6 * i2 + 2] == pre[6 * (n - 2) + 6 * i2 + 2]);
                    assert(indices@[6 * (n - 2) + 6 * i2 + 3] == pre[6 * (n - 2) + 6 * i2 + 3]);
                    assert(indices@[6 * (n - 2) + 6 * i2 + 4] == pre[6 * (n - 2) + 6 * i2 + 4]);
                    assert(indices@[6 * (n - 2) + 6 * i2 + 5] == pre[6 * (n - 2) + 6 * i2 + 5]);
                }
            }
            vstd::arithmetic::div_mod::lemma_div_multiples_vanish(
                2 * (n as int - 2) + 2 * (i as int) + 2,
                3,
            );
            vstd::arithmetic::div_mod::lemma_div_multiples_vanish(
                2 * (n as int - 2) + 2 * (i as int),
                3,
            );
            assert(indices@.len() / 3 == 2 * (n as int - 2) + 2 * (i as int) + 2);
            assert(pre.len() / 3 == 2 * (n as int - 2) + 2 * (i as int));
            assert forall|t: int| 0 <= t < indices@.len() / 3 implies tri_distinct_at(
                indices@,
                t,
            ) by {
                if t < 2 * (n as int - 2) + 2 * (i as int) {
                    assert(tri_distinct_at(pre, t));
                    assert(indices@[3 * t] == pre[3 * t]);
                    assert(indices@[3 * t + 1] == pre[3 * t + 1]);
                    assert(indices@[3 * t + 2] == pre[3 * t + 2]);
                } else {
                    assert(3 * t == base || 3 * t == base + 3);
                }
            }
        }
        i += 1;
    }

    let m = MeshBuffer { positions, normals, indices };
    proof {
        lemma_axis_normals_unit();
        assert(m.indices@.len() == 12 * n - 12);
        assert(m.indices@.len() % 3 == 0);
        assert forall|k2: int| 0 <= k2 < m.normals@.len() implies is_unit_normal(m.nrm(k2)) by {
            if k2 < n {
                assert(m.normals@[k2]@ == front_normal());
            } else {
                let j = k2 - n;
                assert(m.normals@[n as int + j]@ == back_normal());
            }
        }
        assert forall|i2: int| 0 <= i2 < n as int implies #[trigger] polygon_side_ok(
            m,
            n as int,
            i2,
        ) by {
            assert((indices@[6 * (n - 2) + 6 * i2] as int) == i2);
        }
    }
    Ok(m)
}

/// Index offset within one ring segment block: each of the `segments` steps
/// emits 8 triangles (front band, back band, outer wall, inner wall; two
/// triangles each) over the 8 vertices of two consecutive angle slices,
/// numbered from the base vertex `4 * i`.
pub open spec fn ring_offset(j: int) -> int {
    if j == 0 {
        0
    } else if j == 1 {
        4
    } else if j == 2 {
        1
    } else if j == 3 {
        1
    } else if j == 4 {
        4
    } else if j == 5 {
        5
    } else if j == 6 {
        2
    } else if j == 7 {
        3
    } else if j == 8 {
        6
    } else if j == 9 {
        3
    } else if j == 10 {
        7
    } else if j == 11 {
        6
    } else if j == 12 {
        0
    } else if j == 13 {
        2
    } else if j == 14 {
        4
    } else if j == 15 {
        2
    } else if j == 16 {
        6
    } else if j == 17 {
        4
    } else if j == 18 {
        1
    } else if j == 19 {
        5
    } else if j == 20 {
        3
    } else if j == 21 {
        3
    } else if j == 22 {
        5
    } else {
        7
    }
}

/// Angle slice `i` of a ring: four vertices (front-outer, front-inner,
/// back-outer, back-inner) at the circle sample `s`, with cap normals.
pub open spec fn ring_slice_ok(
    pos: Seq<Vec3Fx>,
    nrm: Seq<Vec3Fx>,
    i: int,
    outer: int,
    inner: int,
    half: int,
    s: Vec2Fx,
) -> bool {
    &&& pos[4 * i]@ == (mul_scaled(outer, s.x as int), mul_scaled(outer, s.y as int), half)
    &&& pos[4 * i + 1]@ == (mul_scaled(inner, s.x as int), mul_scaled(inner, s.y as int), half)
    &&& pos[4 * i + 2]@ == (mul_scaled(outer, s.x as int), mul_scaled(outer, s.y as int), -half)
    &&& pos[4 * i + 3]@ == (mul_scaled(inner, s.x as int), mul_scaled(inner, s.y as int), -half)
    &&& nrm[4 * i]@ == front_normal()
    &&& nrm[4 * i + 1]@ == front_normal()
    &&& nrm[4 * i + 2]@ == back_normal()
    &&& nrm[4 * i + 3]@ == back_normal()
}

/// The whole contract of [`create_3d_ring_mesh`] on success, over the
/// supplied sample loop of length `segments + 1`.
pub open spec fn ring_mesh_ok(
    m: MeshBuffer,
    samples: Seq<Vec2Fx>,
    outer: int,
    inner: int,
    half: int,
) -> bool {
    let segs = samples.len() - 1;
    &&& m.wf()
    &&& m.positions@.len() == 4 * (segs + 1)
    &&& m.normals@.len() == 4 * (segs + 1)
    &&& m.indices@.len() == 24 * segs
    &&& forall|i: int|
        0 <= i <= segs ==> #[trigger] ring_slice_ok(
            m.positions@,
            m.normals@,
            i,
            outer,
            inner,
            half,
            samples[i],
        )
    &&& forall|i: int, j: int|
        0 <= i < segs && 0 <= j < 24 ==> ((#[trigger] m.indices@[24 * i + j]) as int) == 4 * i
            + ring_offset(j)
}

/// Creates a ring (annulus) of `segments` angle steps extruded by `depth`.
/// Per sample, four vertices stand in the buffer (front-outer, front-inner,
/// back-outer, back-inner); per segment, four quads (front and back bands,
/// outer and inner walls) are split into eight triangles. The seam vertex is
/// duplicated: the last sample repeats the first, so the loop closes exactly.
#[verifier::rlimit(80)]
pub fn create_3d_ring_mesh(
    outer_radius: i64,
    inner_radius: i64,
    depth: i64,
    segments: usize,
    samples: &Vec<Vec2Fx>,
) -> (r: Result<MeshBuffer, GeometryError>)
    requires
        0 <= inner_radius <= COORD_LIMIT,
        0 <= outer_radius <= COORD_LIMIT,
        0 <= depth,
        segments <= 1_000_000,
        valid_loop_samples(samples@, segments as int),
    ensures
        r is Err <==> (segments < 3 || inner_radius >= outer_radius),
        segments < 3 ==> r == Err::<MeshBuffer, GeometryError>(
            GeometryError::ConfigurationOutOfRange,
        ),
        segments >= 3 && inner_radius >= outer_radius ==> r == Err::<MeshBuffer, GeometryError>(
            GeometryError::InvalidGeometry,
        ),
        r matches Ok(m) ==> ring_mesh_ok(
            m,
            samples@,
            outer_radius as int,
            inner_radius as int,
            depth as int / 2,
        ),
        r matches Ok(m) ==> m.pos(4 * (segments as int)) == m.pos(0),
{
    if segments < 3 {
        return Err(GeometryError::ConfigurationOutOfRange);
    }
    if inner_radius >= outer_radius {
        return Err(GeometryError::InvalidGeometry);
    }
    let half: i64 = ((depth as u64) / 2) as i64;
    let neg_half: i64 = -half;

    let mut positions: Vec<Vec3Fx> = Vec::new();
    let mut normals: Vec<Vec3Fx> = Vec::new();

    let mut i: usize = 0;
    while i <= segments
        invariant
            i <= segments + 1,
            segments <= 1_000_000,
            samples@.len() == segments + 1,
            valid_loop_samples(samples@, segments as int),
            0 <= inner_radius <= COORD_LIMIT,
            0 <= outer_radius <= COORD_LIMIT,
            neg_half == -(half as int),
            positions@.len() == 4 * i,
            normals@.len() == 4 * i,
            forall|i2: int|
                0 <= i2 < i ==> #[trigger] ring_slice_ok(
                    positions@,
                    normals@,
                    i2,
                    outer_radius as int,
                    inner_radius as int,
                    half as int,
                    samples@[i2],
                ),
            forall|k: int|
                0 <= k < normals@.len() ==> #[trigger] normals@[k]@ == front_normal()
                    || normals@[k]@ == back_normal(),
        decreases segments + 1 - i,
    {
        proof {
            assert(-(SCALE as int) <= samples@[i as int].x <= SCALE as int);
            assert(-(SCALE as int) <= samples@[i as int].y <= SCALE as int);
        }
        let s = samples[i];
        let ox = fx_mul(outer_radius, s.x);
        let oy = fx_mul(outer_radius, s.y);
        let ix = fx_mul(inner_radius, s.x);
        let iy = fx_mul(inner_radius, s.y);
        let ghost ppre = positions@;
        let ghost npre = normals@;
        positions.push(Vec3Fx { x: ox, y: oy, z: half });
        positions.push(Vec3Fx { x: ix, y: iy, z: half });
        positions.push(Vec3Fx { x: ox, y: oy, z: neg_half });
        positions.push(Vec3Fx { x: ix, y: iy, z: neg_half });
        normals.push(Vec3Fx { x: 0, y: 0, z: SCALE });
        normals.push(Vec3Fx { x: 0, y: 0, z: SCALE });
        normals.push(Vec3Fx { x: 0, y: 0, z: -SCALE });
        normals.push(Vec3Fx { x: 0, y: 0, z: -SCALE });
        proof {
            assert forall|j: int| 0 <= j < ppre.len() implies positions@[j] == ppre[j] by {}
            assert forall|j: int| 0 <= j < npre.len() implies normals@[j] == npre[j] by {}
            assert(positions@.len() == 4 * (i as int) + 4);
            assert(positions@[4 * (i as int)]@ == (
                mul_scaled(outer_radius as int, samples@[i as int].x as int),
                mul_scaled(outer_radius as int, samples@[i as int].y as int),
                half as int,
            ));
            assert(positions@[4 * (i as int) + 1]@ == (
                mul_scaled(inner_radius as int, samples@[i as int].x as int),
                mul_scaled(inner_radius as int, samples@[i as int].y as int),
                half as int,
            ));
            assert(positions@[4 * (i as int) + 2]@ == (
                mul_scaled(outer_radius as int, samples@[i as int].x as int),
                mul_scaled(outer_radius as int, samples@[i as int].y as int),
                -(half as int),
            ));
            assert(positions@[4 * (i as int) + 3]@ == (
                mul_scaled(inner_radius as int, samples@[i as int].x as int),
                mul_scaled(inner_radius as int, samples@[i as int].y as int),
                -(half as int),
            ));
            assert(normals@[4 * (i as int)]@ == front_normal());
            assert(normals@[4 * (i as int) + 1]@ == front_normal());
            assert(normals@[4 * (i as int) + 2]@ == back_normal());
            assert(normals@[4 * (i as int) + 3]@ == back_normal());
            assert(ring_slice_ok(
                positions@,
                normals@,
                i as int,
                outer_radius as int,
                inner_radius as int,
                half as int,
                samples@[i as int],
            ));
            assert forall|i2: int| 0 <= i2 < i + 1 implies #[trigger] ring_slice_ok(
                positions@,
                normals@,
                i2,
                outer_radius as int,
                inner_radius as int,
                half as int,
                samples@[i2],
            ) by {
                if i2 < i {
                    assert(ring_slice_ok(
                        ppre,
                        npre,
                        i2,
                        outer_radius as int,
                        inner_radius as int,
                        half as int,
                        samples@[i2],
                    ));
                    assert(positions@[4 * i2] == ppre[4 * i2]);
                    assert(positions@[4 * i2 + 1] == ppre[4 * i2 + 1]);
                    assert(positions@[4 * i2 + 2] == ppre[4 * i2 + 2]);
                    assert(positions@[4 * i2 + 3] == ppre[4 * i2 + 3]);
                    assert(normals@[4 * i2] == npre[4 * i2]);
                    assert(normals@[4 * i2 + 1] == npre[4 * i2 + 1]);
                    assert(normals@[4 * i2 + 2] == npre[4 * i2 + 2]);
                    assert(normals@[4 * i2 + 3] == npre[4 * i2 + 3]);
                }
            }
        }
        i += 1;
    }

    let mut indices: Vec<u32> = Vec::new();
    let mut i: usize = 0;
    while i < segments
        invariant
            i <= segments,
            segments <= 1_000_000,
            indices@.len() == 24 * i,
            forall|i2: int, j: int|
                0 <= i2 < i && 0 <= j < 24 ==> ((#[trigger] indices@[24 * i2 + j]) as int) == 4
                    * i2 + ring_offset(j),
            forall|k: int| 0 <= k < indices@.len() ==> ((#[trigger] indices@[k]) as int) < 4 * (
            segments + 1),
            forall|t: int| 0 <= t < indices@.len() / 3 ==> tri_distinct_at(indices@, t),
        decreases segments - i,
    {
        let b: u32 = (i as u32) * 4;
        let ghost pre = indices@;
        // Front band, counterclockwise seen from +z.
        indices.push(b);
        indices.push(b + 4);
        indices.push(b + 1);
        indices.push(b + 1);
        indices.push(b + 4);
        indices.push(b + 5);
        // Back band, wound the other way.
        indices.push(b + 2);
        indices.push(b + 3);
        indices.push(b + 6);
        indices.push(b + 3);
        indices.push(b + 7);
        indices.push(b + 6);
        // Outer wall, facing away from the axis.
        indices.push(b);
        indices.push(b + 2);
        indices.push(b + 4);
        indices.push(b + 2);
        indices.push(b + 6);
        indices.push(b + 4);
        // Inner wall, facing the hole.
        indices.push(b + 1);
        indices.push(b + 5);
        indices.push(b + 3);
        indices.push(b + 3);
        indices.push(b + 5);
        indices.push(b + 7);
        proof {
            let base = 24 * (i as int);
            let bi = 4 * (i as int);
            assert(indices@.len() == base + 24);
            assert forall|j: int| 0 <= j < pre.len() implies indices@[j] == pre[j] by {}
            assert((indices@[base + 0] as int) == bi + 0);
            assert((indices@[base + 1] as int) == bi + 4);
            assert((indices@[base + 2] as int) == bi + 1);
            assert((indices@[base + 3] as int) == bi + 1);
            assert((indices@[base + 4] as int) == bi + 4);
            assert((indices@[base + 5] as int) == bi + 5);
            assert((indices@[base + 6] as int) == bi + 2);
            assert((indices@[base + 7] as int) == bi + 3);
            assert((indices@[base + 8] as int) == bi + 6);
            assert((indices@[base + 9] as int) == bi + 3);
            assert((indices@[base + 10] as int) == bi + 7);
            assert((indices@[base + 11] as int) == bi + 6);
            assert((indices@[base + 12] as int) == bi + 0);
            assert((indices@[base + 13] as int) == bi + 2);
            assert((indices@[base + 14] as int) == bi + 4);
            assert((indices@[base + 15] as int) == bi + 2);
            assert((indices@[base + 16] as int) == bi + 6);
            assert((indices@[base + 17] as int) == bi + 4);
            assert((indices@[base + 18] as int) == bi + 1);
            assert((indices@[base + 19] as int) == bi + 5);
            assert((indices@[base + 20] as int) == bi + 3);
            assert((indices@[base + 21] as int) == bi + 3);
            assert((indices@[base + 22] as int) == bi + 5);
            assert((indices@[base + 23] as int) == bi + 7);
            assert forall|i2: int, j: int|
                0 <= i2 < i + 1 && 0 <= j < 24 implies ((#[trigger] indices@[24 * i2
                + j]) as int) == 4 * i2 + ring_offset(j) by {
                if i2 < i {
                    assert(indices@[24 * i2 + j] == pre[24 * i2 + j]);
                    assert(((pre[24 * i2 + j]) as int) == 4 * i2 + ring_offset(j));
                }
            }
            assert forall|k: int| 0 <= k < indices@.len() implies ((#[trigger] indices@[k]) as int)
                < 4 * (segments + 1) by {
                if k < pre.len() {
                    assert(indices@[k] == pre[k]);
                    assert((pre[k] as int) < 4 * (segments + 1));
                }
            }
            vstd::arithmetic::div_mod::lemma_div_multiples_vanish(8 * (i as int), 3);
            vstd::arithmetic::div_mod::lemma_div_multiples_vanish(8 * (i as int) + 8, 3);
            assert(pre.len() / 3 == 8 * (i as int));
            assert(indices@.len() / 3 == 8 * (i as int) + 8);
            assert forall|t: int| 0 <= t < indices@.len() / 3 implies tri_distinct_at(
                indices@,
                t,
            ) by {
                if t < 8 * (i as int) {
                    assert(tri_distinct_at(pre, t));
                    assert(indices@[3 * t] == pre[3 * t]);
                    assert(indices@[3 * t + 1] == pre[3 * t + 1]);
                    assert(indices@[3 * t + 2] == pre[3 * t + 2]);
                } else {
                    assert(3 * t == base || 3 * t == base + 3 || 3 * t == base + 6 || 3 * t == base
                        + 9 || 3 * t == base + 12 || 3 * t == base + 15 || 3 * t == base + 18 || 3
                        * t == base + 21);
                }
            }
        }
        i += 1;
    }

    let m = MeshBuffer { positions, normals, indices };
    proof {
        lemma_axis_normals_unit();
        assert(m.indices@.len() % 3 == 0) by {
            assert(m.indices@.len() == 3 * (8 * (segments as int)));
        }
        assert forall|k2: int| 0 <= k2 < m.normals@.len() implies is_unit_normal(m.nrm(k2)) by {
            assert(m.normals@[k2]@ == front_normal() || m.normals@[k2]@ == back_normal());
        }
        assert(ring_slice_ok(
            m.positions@,
            m.normals@,
            0,
            outer_radius as int,
            inner_radius as int,
            half as int,
            samples@[0],
        ));
        assert(ring_slice_ok(
            m.positions@,
            m.normals@,
            segments as int,
            outer_radius as int,
            inner_radius as int,
            half as int,
            samples@[segments as int],
        ));
        assert(samples@[segments as int] == samples@[0]);
    }
    Ok(m)
}

/// Rim slice `i` of a cylinder: one front and one back vertex at the circle
/// sample `s`, behind the two apex vertices at indices 0 and 1.
pub open spec fn cylinder_slice_ok(
    pos: Seq<Vec3Fx>,
    nrm: Seq<Vec3Fx>,
    i: int,
    radius: int,
    half: int,
    s: Vec2Fx,
) -> bool {
    &&& pos[2 + 2 * i]@ == (mul_scaled(radius, s.x as int), mul_scaled(radius, s.y as int), half)
    &&& pos[3 + 2 * i]@ == (mul_scaled(radius, s.x as int), mul_scaled(radius, s.y as int), -half)
    &&& nrm[2 + 2 * i]@ == front_normal()
    &&& nrm[3 + 2 * i]@ == back_normal()
}

/// The whole contract of [`create_3d_cylinder_mesh`] on success: one apex
/// vertex per cap, a fan of `segments` triangles per cap, and a side wall of
/// two triangles per segment.
pub open spec fn cylinder_mesh_ok(m: MeshBuffer, samples: Seq<Vec2Fx>, radius: int, half: int) -> bool {
    let segs = samples.len() - 1;
    &&& m.wf()
    &&& m.positions@.len() == 2 + 2 * (segs + 1)
    &&& m.normals@.len() == 2 + 2 * (segs + 1)
    &&& m.indices@.len() == 12 * segs
    &&& m.pos(0) == (0int, 0int, half)
    &&& m.pos(1) == (0int, 0int, -half)
    &&& m.nrm(0) == front_normal()
    &&& m.nrm(1) == back_normal()
    &&& forall|i: int|
        0 <= i <= segs ==> #[trigger] cylinder_slice_ok(
            m.positions@,
            m.normals@,
            i,
            radius,
            half,
            samples[i],
        )
    &&& forall|i: int|
        0 <= i < segs ==> ((#[trigger] m.indices@[3 * i]) as int) == 0 && (m.indices@[3 * i
            + 1] as int) == 2 + 2 * i && (m.indices@[3 * i + 2] as int) == 4 + 2 * i
    &&& forall|i: int|
        0 <= i < segs ==> ((#[trigger] m.indices@[3 * segs + 3 * i]) as int) == 1 && (m.indices@[3
            * segs + 3 * i + 1] as int) == 2 * i + 5 && (m.indices@[3 * segs + 3 * i + 2] as int)
            == 2 * i + 3
    &&& forall|i: int|
        0 <= i < segs ==> ((#[trigger] m.indices@[6 * segs + 6 * i]) as int) == 2 + 2 * i && (
        m.indices@[6 * segs + 6 * i + 1] as int) == 3 + 2 * i && (m.indices@[6 * segs + 6 * i
            + 2] as int) == 4 + 2 * i && (m.indices@[6 * segs + 6 * i + 3] as int) == 3 + 2 * i && (
        m.indices@[6 * segs + 6 * i + 4] as int) == 5 + 2 * i && (m.indices@[6 * segs + 6 * i
            + 5] as int) == 4 + 2 * i
}

/// Creates a solid disk of `segments` angle steps extruded by `depth`: each
/// cap is a triangle fan around its apex vertex, and the rim vertices are
/// shared between the fans and the side wall. The seam vertex is duplicated,
/// as for the ring.
#[verifier::rlimit(60)]
pub fn create_3d_cylinder_mesh(
    radius: i64,
    depth: i64,
    segments: usize,
    samples: &Vec<Vec2Fx>,
) -> (r: Result<MeshBuffer, GeometryError>)
    requires
        0 <= radius <= COORD_LIMIT,
        0 <= depth,
        segments <= 1_000_000,
        valid_loop_samples(samples@, segments as int),
    ensures
        r is Err <==> segments < 3,
        r is Err ==> r == Err::<MeshBuffer, GeometryError>(GeometryError::ConfigurationOutOfRange),
        r matches Ok(m) ==> cylinder_mesh_ok(m, samples@, radius as int, depth as int / 2),
        r matches Ok(m) ==> m.pos(2 + 2 * (segments as int)) == m.pos(2),
{
    if segments < 3 {
        return Err(GeometryError::ConfigurationOutOfRange);
    }
    let half: i64 = ((depth as u64) / 2) as i64;
    let neg_half: i64 = -half;

    let mut positions: Vec<Vec3Fx> = Vec::new();
    let mut normals: Vec<Vec3Fx> = Vec::new();

    // Apex vertex of each cap.
    positions.push(Vec3Fx { x: 0, y: 0, z: half });
    normals.push(Vec3Fx { x: 0, y: 0, z: SCALE });
    positions.push(Vec3Fx { x: 0, y: 0, z: neg_half });
    normals.push(Vec3Fx { x: 0, y: 0, z: -SCALE });

    let mut i: usize = 0;
    while i <= segments
        invariant
            i <= segments + 1,
            segments <= 1_000_000,
            samples@.len() == segments + 1,
            valid_loop_samples(samples@, segments as int),
            0 <= radius <= COORD_LIMIT,
            neg_half == -(half as int),
            positions@.len() == 2 + 2 * i,
            normals@.len() == 2 + 2 * i,
            positions@[0]@ == (0int, 0int, half as int),
            positions@[1]@ == (0int, 0int, -(half as int)),
            normals@[0]@ == front_normal(),
            normals@[1]@ == back_normal(),
            forall|i2: int|
                0 <= i2 < i ==> #[trigger] cylinder_slice_ok(
                    positions@,
                    normals@,
                    i2,
                    radius as int,
                    half as int,
                    samples@[i2],
                ),
            forall|k: int|
                0 <= k < normals@.len() ==> #[trigger] normals@[k]@ == front_normal()
                    || normals@[k]@ == back_normal(),
        decreases segments + 1 - i,
    {
        proof {
            assert(-(SCALE as int) <= samples@[i as int].x <= SCALE as int);
            assert(-(SCALE as int) <= samples@[i as int].y <= SCALE as int);
        }
        let s = samples[i];
        let px = fx_mul(radius, s.x);
        let py = fx_mul(radius, s.y);
        let ghost ppre = positions@;
        let ghost npre = normals@;
        positions.push(Vec3Fx { x: px, y: py, z: half });
        normals.push(Vec3Fx { x: 0, y: 0, z: SCALE });
        positions.push(Vec3Fx { x: px, y: py, z: neg_half });
        normals.push(Vec3Fx { x: 0, y: 0, z: -SCALE });
        proof {
            assert forall|j: int| 0 <= j < ppre.len() implies positions@[j] == ppre[j] by {}
            assert forall|j: int| 0 <= j < npre.len() implies normals@[j] == npre[j] by {}
            assert(cylinder_slice_ok(
                positions@,
                normals@,
                i as int,
                radius as int,
                half as int,
                samples@[i as int],
            ));
            assert forall|i2: int| 0 <= i2 < i + 1 implies #[trigger] cylinder_slice_ok(
                positions@,
                normals@,
                i2,
                radius as int,
                half as int,
                samples@[i2],
            ) by {
                if i2 < i {
                    assert(cylinder_slice_ok(
                        ppre,
                        npre,
                        i2,
                        radius as int,
                        half as int,
                        samples@[i2],
                    ));
                    assert(positions@[2 + 2 * i2] == ppre[2 + 2 * i2]);
                    assert(positions@[3 + 2 * i2] == ppre[3 + 2 * i2]);
                    assert(normals@[2 + 2 * i2] == npre[2 + 2 * i2]);
                    assert(normals@[3 + 2 * i2] == npre[3 + 2 * i2]);
                }
            }
        }
        i += 1;
    }

    let mut indices: Vec<u32> = Vec::new();

    // Front-cap fan.
    let mut i: usize = 0;
    while i < segments
        invariant
            i <= segments,
            segments <= 1_000_000,
            indices@.len() == 3 * i,
            forall|i2: int|
                0 <= i2 < i ==> ((#[trigger] indices@[3 * i2]) as int) == 0 && (indices@[3 * i2
                    + 1] as int) == 2 + 2 * i2 && (indices@[3 * i2 + 2] as int) == 4 + 2 * i2,
            forall|k: int|
                0 <= k < indices@.len() ==> ((#[trigger] indices@[k]) as int) < 2 * segments + 4,
            forall|t: int| 0 <= t < indices@.len() / 3 ==> tri_distinct_at(indices@, t),
        decreases segments - i,
    {
        let front: u32 = 2 + (i as u32) * 2;
        let ghost pre = indices@;
        indices.push(0);
        indices.push(front);
        indices.push(front + 2);
        proof {
            let base = 3 * (i as int);
            assert(indices@.len() == base + 3);
            assert forall|j: int| 0 <= j < pre.len() implies indices@[j] == pre[j] by {}
            assert((indices@[base] as int) == 0);
            assert((indices@[base + 1] as int) == 2 + 2 * (i as int));
            assert((indices@[base + 2] as int) == 4 + 2 * (i as int));
            assert forall|i2: int|
                0 <= i2 < i + 1 implies ((#[trigger] indices@[3 * i2]) as int) == 0 && (indices@[3
                * i2 + 1] as int) == 2 + 2 * i2 && (indices@[3 * i2 + 2] as int) == 4 + 2
                * i2 by {
                if i2 < i {
                    assert(indices@[3 * i2] == pre[3 * i2]);
                    assert(indices@[3 * i2 + 1] == pre[3 * i2 + 1]);
                    assert(indices@[3 * i2 + 2] == pre[3 * i2 + 2]);
                    assert((pre[3 * i2] as int) == 0);
                }
            }
            vstd::arithmetic::div_mod::lemma_div_multiples_vanish(i as int, 3);
            vstd::arithmetic::div_mod::lemma_div_multiples_vanish(i as int + 1, 3);
            assert forall|t: int| 0 <= t < indices@.len() / 3 implies tri_distinct_at(
                indices@,
                t,
            ) by {
                if t < i as int {
                    assert(tri_distinct_at(pre, t));
                    assert(indices@[3 * t] == pre[3 * t]);
                    assert(indices@[3 * t + 1] == pre[3 * t + 1]);
                    assert(indices@[3 * t + 2] == pre[3 * t + 2]);
                } else {
                    assert(3 * t == base);
                }
            }
        }
        i += 1;
    }

    // Back-cap fan, wound the other way.
    let mut i: usize = 0;
    while i < segments
        invariant
            i <= segments,
            segments <= 1_000_000,
            indices@.len() == 3 * segments + 3 * i,
            forall|i2: int|
                0 <= i2 < segments ==> ((#[trigger] indices@[3 * i2]) as int) == 0 && (indices@[3
                    * i2 + 1] as int) == 2 + 2 * i2 && (indices@[3 * i2 + 2] as int) == 4 + 2 * i2,
            forall|i2: int|
                0 <= i2 < i ==> ((#[trigger] indices@[3 * (segments as int) + 3 * i2]) as int) == 1
                    && (indices@[3 * (segments as int) + 3 * i2 + 1] as int) == 2 * i2 + 5 && (
                indices@[3 * (segments as int) + 3 * i2 + 2] as int) == 2 * i2 + 3,
            forall|k: int|
                0 <= k < indices@.len() ==> ((#[trigger] indices@[k]) as int) < 2 * segments + 4,
            forall|t: int| 0 <= t < indices@.len() / 3 ==> tri_distinct_at(indices@, t),
        decreases segments - i,
    {
        let back: u32 = 3 + (i as u32) * 2;
        let ghost pre = indices@;
        indices.push(1);
        indices.push(back + 2);
        indices.push(back);
        proof {
            let base = 3 * (segments as int) + 3 * (i as int);
            assert(indices@.len() == base + 3);
            assert forall|j: int| 0 <= j < pre.len() implies indices@[j] == pre[j] by {}
            assert((indices@[base] as int) == 1);
            assert((indices@[base + 1] as int) == 2 * (i as int) + 5);
            assert((indices@[base + 2] as int) == 2 * (i as int) + 3);
            assert forall|i2: int|
                0 <= i2 < segments as int implies ((#[trigger] indices@[3 * i2]) as int) == 0 && (
            indices@[3 * i2 + 1] as int) == 2 + 2 * i2 && (indices@[3 * i2 + 2] as int) == 4 + 2
                * i2 by {
                assert(indices@[3 * i2] == pre[3 * i2]);
                assert(indices@[3 * i2 + 1] == pre[3 * i2 + 1]);
                assert(indices@[3 * i2 + 2] == pre[3 * i2 + 2]);
                assert((pre[3 * i2] as int) == 0);
            }
            assert forall|i2: int|
                0 <= i2 < i + 1 implies ((#[trigger] indices@[3 * (segments as int) + 3
                * i2]) as int) == 1 && (indices@[3 * (segments as int) + 3 * i2 + 1] as int) == 2
                * i2 + 5 && (indices@[3 * (segments as int) + 3 * i2 + 2] as int) == 2 * i2
                + 3 by {
                if i2 < i {
                    assert(indices@[3 * (segments as int) + 3 * i2] == pre[3 * (segments as int) + 3
                        * i2]);
                    assert(indices@[3 * (segments as int) + 3 * i2 + 1] == pre[3 * (
                    segments as int) + 3 * i2 + 1]);
                    assert(indices@[3 * (segments as int) + 3 * i2 + 2] == pre[3 * (
                    segments as int) + 3 * i2 + 2]);
                    assert((pre[3 * (segments as int) + 3 * i2] as int) == 1);
                }
            }
            vstd::arithmetic::div_mod::lemma_div_multiples_vanish(segments as int + i as int, 3);
            vstd::arithmetic::div_mod::lemma_div_multiples_vanish(
                segments as int + i as int + 1,
                3,
            );
            assert forall|t: int| 0 <= t < indices@.len() / 3 implies tri_distinct_at(
                indices@,
                t,
            ) by {
                if t < segments as int + i as int {
                    assert(tri_distinct_at(pre, t));
                    assert(indices@[3 * t] == pre[3 * t]);
                    assert(indices@[3 * t + 1] == pre[3 * t + 1]);
                    assert(indices@[3 * t + 2] == pre[3 * t + 2]);
                } else {
                    assert(3 * t == base);
                }
            }
        }
        i += 1;
    }

    // Side wall.
    let mut i: usize = 0;
    while i < segments
        invariant
            i <= segments,
            segments <= 1_000_000,
            indices@.len() == 6 * segments + 6 * i,
            forall|i2: int|
                0 <= i2 < segments ==> ((#[trigger] indices@[3 * i2]) as int) == 0 && (indices@[3
                    * i2 + 1] as int) == 2 + 2 * i2 && (indices@[3 * i2 + 2] as int) == 4 + 2 * i2,
            forall|i2: int|
                0 <= i2 < segments ==> ((#[trigger] indices@[3 * (segments as int) + 3
                * i2]) as int) == 1 && (indices@[3 * (segments as int) + 3 * i2 + 1] as int) == 2
                    * i2 + 5 && (indices@[3 * (segments as int) + 3 * i2 + 2] as int) == 2 * i2
                    + 3,
            forall|i2: int|
                0 <= i2 < i ==> ((#[trigger] indices@[6 * (segments as int) + 6 * i2]) as int) == 2
                    + 2 * i2 && (indices@[6 * (segments as int) + 6 * i2 + 1] as int) == 3 + 2 * i2
                    && (indices@[6 * (segments as int) + 6 * i2 + 2] as int) == 4 + 2 * i2 && (
                indices@[6 * (segments as int) + 6 * i2 + 3] as int) == 3 + 2 * i2 && (indices@[6
                    * (segments as int) + 6 * i2 + 4] as int) == 5 + 2 * i2 && (indices@[6 * (
                segments as int) + 6 * i2 + 5] as int) == 4 + 2 * i2,
            forall|k: int|
                0 <= k < indices@.len() ==> ((#[trigger] indices@[k]) as int) < 2 * segments + 4,
            forall|t: int| 0 <= t < indices@.len() / 3 ==> tri_distinct_at(indices@, t),
        decreases segments - i,
    {
        let front: u32 = 2 + (i as u32) * 2;
        let back: u32 = 3 + (i as u32) * 2;
        let ghost pre = indices@;
        indices.push(front);
        indices.push(back);
        indices.push(front + 2);
        indices.push(back);
        indices.push(back + 2);
        indices.push(front + 2);
        proof {
            let base = 6 * (segments as int) + 6 * (i as int);
            assert(indices@.len() == base + 6);
            assert forall|j: int| 0 <= j < pre.len() implies indices@[j] == pre[j] by {}
            assert((indices@[base] as int) == 2 + 2 * (i as int));
            assert((indices@[base + 1] as int) == 3 + 2 * (i as int));
            assert((indices@[base + 2] as int) == 4 + 2 * (i as int));
            assert((indices@[base + 3] as int) == 3 + 2 * (i as int));
            assert((indices@[base + 4] as int) == 5 + 2 * (i as int));
            assert((indices@[base + 5] as int) == 4 + 2 * (i as int));
            assert forall|i2: int|
                0 <= i2 < segments as int implies ((#[trigger] indices@[3 * i2]) as int) == 0 && (
            indices@[3 * i2 + 1] as int) == 2 + 2 * i2 && (indices@[3 * i2 + 2] as int) == 4 + 2
                * i2 by {
                assert(indices@[3 * i2] == pre[3 * i2]);
                assert(indices@[3 * i2 + 1] == pre[3 * i2 + 1]);
                assert(indices@[3 * i2 + 2] == pre[3 * i2 + 2]);
                assert((pre[3 * i2] as int) == 0);
            }
            assert forall|i2: int|
                0 <= i2 < segments as int implies ((#[trigger] indices@[3 * (segments as int) + 3
                * i2]) as int) == 1 && (indices@[3 * (segments as int) + 3 * i2 + 1] as int) == 2
                * i2 + 5 && (indices@[3 * (segments as int) + 3 * i2 + 2] as int) == 2 * i2
                + 3 by {
                assert(indices@[3 * (segments as int) + 3 * i2] == pre[3 * (segments as int) + 3
                    * i2]);
                assert(indices@[3 * (segments as int) + 3 * i2 + 1] == pre[3 * (segments as int) + 3
                    * i2 + 1]);
                assert(indices@[3 * (segments as int) + 3 * i2 + 2] == pre[3 * (segments as int) + 3
                    * i2 + 2]);
                assert((pre[3 * (segments as int) + 3 * i2] as int) == 1);
            }
            assert forall|i2: int|
                0 <= i2 < i + 1 implies ((#[trigger] indices@[6 * (segments as int) + 6
                * i2]) as int) == 2 + 2 * i2 && (indices@[6 * (segments as int) + 6 * i2
                + 1] as int) == 3 + 2 * i2 && (indices@[6 * (segments as int) + 6 * i2
                + 2] as int) == 4 + 2 * i2 && (indices@[6 * (segments as int) + 6 * i2
                + 3] as int) == 3 + 2 * i2 && (indices@[6 * (segments as int) + 6 * i2
                + 4] as int) == 5 + 2 * i2 && (indices@[6 * (segments as int) + 6 * i2
                + 5] as int) == 4 + 2 * i2 by {
                if i2 < i {
                    assert(indices@[6 * (segments as int) + 6 * i2] == pre[6 * (segments as int) + 6
                        * i2]);
                    assert(indices@[6 * (segments as int) + 6 * i2 + 1] == pre[6 * (
                    segments as int) + 6 * i2 + 1]);
                    assert(indices@[6 * (segments as int) + 6 * i2 + 2] == pre[6 * (
                    segments as int) + 6 * i2 + 2]);
                    assert(indices@[6 * (segments as int) + 6 * i2 + 3] == pre[6 * (
                    segments as int) + 6 * i2 + 3]);
                    assert(indices@[6 * (segments as int) + 6 * i2 + 4] == pre[6 * (
                    segments as int) + 6 * i2 + 4]);
                    assert(indices@[6 * (segments as int) + 6 * i2 + 5] == pre[6 * (
                    segments as int) + 6 * i2 + 5]);
                    assert((pre[6 * (segments as int) + 6 * i2] as int) == 2 + 2 * i2);
                }
            }
            vstd::arithmetic::div_mod::lemma_div_multiples_vanish(
                2 * (segments as int) + 2 * (i as int),
                3,
            );
            vstd::arithmetic::div_mod::lemma_div_multiples_vanish(
                2 * (segments as int) + 2 * (i as int) + 2,
                3,
            );
            assert(pre.len() / 3 == 2 * (segments as int) + 2 * (i as int));
            assert(indices@.len() / 3 == 2 * (segments as int) + 2 * (i as int) + 2);
            assert forall|t: int| 0 <= t < indices@.len() / 3 implies tri_distinct_at(
                indices@,
                t,
            ) by {
                if t < 2 * (segments as int) + 2 * (i as int) {
                    assert(tri_distinct_at(pre, t));
                    assert(indices@[3 * t] == pre[3 * t]);
                    assert(indices@[3 * t + 1] == pre[3 * t + 1]);
                    assert(indices@[3 * t + 2] == pre[3 * t + 2]);
                } else {
                    assert(3 * t == base || 3 * t == base + 3);
                }
            }
        }
        i += 1;
    }

    let m = MeshBuffer { positions, normals, indices };
    proof {
        lemma_axis_normals_unit();
        assert(m.indices@.len() % 3 == 0) by {
            assert(m.indices@.len() == 3 * (4 * (segments as int)));
        }
        assert forall|k2: int| 0 <= k2 < m.normals@.len() implies is_unit_normal(m.nrm(k2)) by {
            assert(m.normals@[k2]@ == front_normal() || m.normals@[k2]@ == back_normal());
        }
        assert(cylinder_slice_ok(
            m.positions@,
            m.normals@,
            0,
            radius as int,
            half as int,
            samples@[0],
        ));
        assert(cylinder_slice_ok(
            m.positions@,
            m.normals@,
            segments as int,
            radius as int,
            half as int,
            samples@[segments as int],
        ));
        assert(samples@[segments as int] == samples@[0]);
    }
    Ok(m)
}

/// Shape parameters as a tagged variant: produced by the caller, consumed
/// once per builder call.
pub enum ShapeParameters {
    Ring { outer_radius: i64, inner_radius: i64, depth: i64, segments: usize },
    Cylinder { radius: i64, depth: i64, segments: usize },
    Triangle { p1: Vec2Fx, p2: Vec2Fx, p3: Vec2Fx, depth: i64 },
    Polygon { points: Vec<Vec2Fx>, depth: i64 },
}

/// What each variant asks of its arguments and of the sample table: the
/// bounds the machine arithmetic needs, and for the circular shapes a
/// sample loop matching the segment count. The triangle and polygon
/// variants ignore the samples.
pub open spec fn shape_requires(shape: ShapeParameters, samples: Seq<Vec2Fx>) -> bool {
    match shape {
        ShapeParameters::Ring { outer_radius, inner_radius, depth, segments } => {
            &&& 0 <= inner_radius <= COORD_LIMIT
            &&& 0 <= outer_radius <= COORD_LIMIT
            &&& 0 <= depth
            &&& segments <= 1_000_000
            &&& valid_loop_samples(samples, segments as int)
        },
        ShapeParameters::Cylinder { radius, depth, segments } => {
            &&& 0 <= radius <= COORD_LIMIT
            &&& 0 <= depth
            &&& segments <= 1_000_000
            &&& valid_loop_samples(samples, segments as int)
        },
        ShapeParameters::Triangle { p1, p2, p3, depth } => 0 <= depth,
        ShapeParameters::Polygon { points, depth } => 0 <= depth && points@.len() <= 1_000_000,
    }
}

/// Builds the mesh for any shape variant by dispatching to its builder.
/// Every buffer that comes out satisfies [`MeshBuffer::wf`] — the clauses
/// of [`lemma_mesh_buffer_invariant`] — and each variant's own clauses
/// restate the matching builder's full contract.
pub fn build_mesh(shape: &ShapeParameters, samples: &Vec<Vec2Fx>) -> (r: Result<
    MeshBuffer,
    GeometryError,
>)
    requires
        shape_requires(*shape, samples@),
    ensures
        r matches Ok(m) ==> m.wf(),
        shape matches ShapeParameters::Ring { outer_radius, inner_radius, depth, segments } ==> {
            &&& (r is Err <==> (*segments < 3 || *inner_radius >= *outer_radius))
            &&& (*segments < 3 ==> r == Err::<MeshBuffer, GeometryError>(
                GeometryError::ConfigurationOutOfRange,
            ))
            &&& (*segments >= 3 && *inner_radius >= *outer_radius ==> r == Err::<
                MeshBuffer,
                GeometryError,
            >(GeometryError::InvalidGeometry))
            &&& (r matches Ok(m) ==> ring_mesh_ok(
                m,
                samples@,
                outer_radius as int,
                inner_radius as int,
                depth as int / 2,
            ))
        },
        shape matches ShapeParameters::Cylinder { radius, depth, segments } ==> {
            &&& (r is Err <==> *segments < 3)
            &&& (r is Err ==> r == Err::<MeshBuffer, GeometryError>(
                GeometryError::ConfigurationOutOfRange,
            ))
            &&& (r matches Ok(m) ==> cylinder_mesh_ok(m, samples@, radius as int, depth as int / 2))
        },
        shape matches ShapeParameters::Triangle { p1, p2, p3, depth } ==> {
            &&& r is Ok
            &&& (r matches Ok(m) ==> triangle_mesh_ok(m, *p1, *p2, *p3, depth as int / 2))
        },
        shape matches ShapeParameters::Polygon { points, depth } ==> {
            &&& (r is Err <==> points@.len() < 3)
            &&& (r is Err ==> r == Err::<MeshBuffer, GeometryError>(GeometryError::InvalidGeometry))
            &&& (r matches Ok(m) ==> polygon_mesh_ok(m, points@, depth as int / 2))
        },
{
    match shape {
        ShapeParameters::Ring { outer_radius, inner_radius, depth, segments } => {
            create_3d_ring_mesh(*outer_radius, *inner_radius, *depth, *segments, samples)
        },
        ShapeParameters::Cylinder { radius, depth, segments } => {
            create_3d_cylinder_mesh(*radius, *depth, *segments, samples)
        },
        ShapeParameters::Triangle { p1, p2, p3, depth } => {
            Ok(create_3d_triangle_mesh(*p1, *p2, *p3, *depth))
        },
        ShapeParameters::Polygon { points, depth } => create_3d_polygon_mesh(points, *depth),
    }
}

} // verus!
