//! Solids from tables: whole-number coordinates of a solid at its base
//! size, scaled by a whole factor. Scaling by a whole factor keeps every
//! rule of a descriptor, so a solid from a sound table is valid at every
//! scale.

use vstd::prelude::*;
use crate::geometry::{
    away, axis_sum, buffers_valid, coord, face_at, face_count, faces_ok, in_range, lean, lemma_face_at_next,
    lemma_face_ok, normal, plane_away, spread, triangle_lean, GeometryError, Polyhedron, MAX_COORD,
};

verus! {

/// Largest scale, in hundredths: five hundredfold.
pub const MAX_SCALE: u32 = 50_000;

/// Largest magnitude of a coordinate of a table.
pub const MAX_BASE: i32 = 20_000;

/// Every entry of `big` is the entry of `small` times `s`.
pub open spec fn scaled(small: Seq<i32>, big: Seq<i32>, s: int) -> bool {
    big.len() == small.len() && forall|i: int| 0 <= i < small.len() ==> #[trigger] big[i] == s * small[i]
}

/// Every plane of `big` has the normal of the plane of `small` and `s`
/// times its offset.
pub open spec fn planes_scaled(small: Seq<i32>, big: Seq<i32>, s: int) -> bool {
    big.len() == small.len() && forall|i: int|
        0 <= i < small.len() ==> #[trigger] big[i] == (if i % 4 == 3 {
            s * small[i]
        } else {
            small[i] as int
        })
}

/// A common factor of a difference.
proof fn lemma_factor_diff(s: int, x: int, y: int)
    by (nonlinear_arith)
    ensures
        s * x - s * y == s * (x - y),
{
}

/// The factors of a product of two scaled numbers.
proof fn lemma_factor_product(s: int, m: int, u: int, w: int)
    by (nonlinear_arith)
    ensures
        (m * u) * (s * w) == m * s * (u * w),
{
}

/// A factor moved through a product.
proof fn lemma_factor_swap(n: int, s: int, p: int)
    by (nonlinear_arith)
    ensures
        n * (s * p) == s * (n * p),
{
}

/// Sums of scaled coordinates are scaled sums.
proof fn lemma_scaled_sum(small: Seq<i32>, big: Seq<i32>, s: int, n: int, axis: int)
    requires
        scaled(small, big, s),
        0 <= axis < 3,
        0 <= 3 * n <= small.len(),
    ensures
        axis_sum(big, n, axis) == s * axis_sum(small, n, axis),
    decreases n,
{
    if n > 0 {
        lemma_scaled_sum(small, big, s, n - 1, axis);
        let a = axis_sum(small, n - 1, axis);
        let c = coord(small, n - 1, axis);
        assert(coord(big, n - 1, axis) == s * c);
        assert(s * a + s * c == s * (a + c)) by (nonlinear_arith);
    }
}

/// The normal of a scaled triangle is the normal scaled twice.
proof fn lemma_scaled_normal(small: Seq<i32>, big: Seq<i32>, s: int, a: int, b: int, c: int, axis: int)
    requires
        scaled(small, big, s),
        0 <= axis < 3,
        0 <= a && 3 * a + 2 < small.len(),
        0 <= b && 3 * b + 2 < small.len(),
        0 <= c && 3 * c + 2 < small.len(),
    ensures
        normal(big, a, b, c, axis) == s * s * normal(small, a, b, c, axis),
{
    let j = (axis + 1) % 3;
    let k = (axis + 2) % 3;
    let aj = coord(small, a, j);
    let ak = coord(small, a, k);
    let bj = coord(small, b, j);
    let bk = coord(small, b, k);
    let cj = coord(small, c, j);
    let ck = coord(small, c, k);
    assert(coord(big, a, j) == s * aj);
    assert(coord(big, a, k) == s * ak);
    assert(coord(big, b, j) == s * bj);
    assert(coord(big, b, k) == s * bk);
    assert(coord(big, c, j) == s * cj);
    assert(coord(big, c, k) == s * ck);
    lemma_factor_diff(s, bj, aj);
    lemma_factor_diff(s, ck, ak);
    lemma_factor_diff(s, bk, ak);
    lemma_factor_diff(s, cj, aj);
    lemma_factor_product(s, s, bj - aj, ck - ak);
    lemma_factor_product(s, s, bk - ak, cj - aj);
    lemma_factor_diff(s * s, (bj - aj) * (ck - ak), (bk - ak) * (cj - aj));
}

/// How far a direction points away from the centroid grows with the scale
/// of the vertices and with the factor `m` of the direction.
proof fn lemma_scaled_away(small: Seq<i32>, big: Seq<i32>, s: int, v: int, nx: int, ny: int, nz: int, m: int)
    requires
        scaled(small, big, s),
        small.len() % 3 == 0,
        0 <= v && 3 * v + 2 < small.len(),
    ensures
        away(big, v, m * nx, m * ny, m * nz) == m * s * away(small, v, nx, ny, nz),
{
    let n = small.len() as int / 3;
    lemma_scaled_sum(small, big, s, n, 0);
    lemma_scaled_sum(small, big, s, n, 1);
    lemma_scaled_sum(small, big, s, n, 2);
    let px = coord(small, v, 0);
    let py = coord(small, v, 1);
    let pz = coord(small, v, 2);
    let sx = axis_sum(small, n, 0);
    let sy = axis_sum(small, n, 1);
    let sz = axis_sum(small, n, 2);
    assert(coord(big, v, 0) == s * px);
    assert(coord(big, v, 1) == s * py);
    assert(coord(big, v, 2) == s * pz);
    lemma_factor_swap(n, s, px);
    lemma_factor_swap(n, s, py);
    lemma_factor_swap(n, s, pz);
    lemma_factor_diff(s, n * px, sx);
    lemma_factor_diff(s, n * py, sy);
    lemma_factor_diff(s, n * pz, sz);
    lemma_factor_product(s, m, nx, n * px - sx);
    lemma_factor_product(s, m, ny, n * py - sy);
    lemma_factor_product(s, m, nz, n * pz - sz);
    let tx = nx * (n * px - sx);
    let ty = ny * (n * py - sy);
    let tz = nz * (n * pz - sz);
    lemma_factor_diff(m * s, tx, -ty);
    lemma_factor_diff(m * s, tx + ty, -tz);
    lemma_factor_diff(m * s, 0, ty);
    lemma_factor_diff(m * s, 0, tz);
}

/// Scaling by a whole factor keeps a valid descriptor valid: every index
/// still names a vertex, and every triangle and every plane normal still
/// points away from the centroid.
pub proof fn lemma_scaling_keeps_valid(
    vtx: Seq<i32>,
    indices: Seq<u32>,
    planes: Seq<i32>,
    polygons: Seq<u32>,
    s: int,
    vtx2: Seq<i32>,
    planes2: Seq<i32>,
)
    requires
        s >= 1,
        buffers_valid(vtx, indices, planes, polygons),
        scaled(vtx, vtx2, s),
        planes_scaled(planes, planes2, s),
        in_range(vtx2),
    ensures
        buffers_valid(vtx2, indices, planes2, polygons),
{
    let n = vtx.len() as int / 3;
    assert forall|axis: int| 0 <= axis < 3 && spread(vtx, axis) implies spread(vtx2, axis) by {
        let v = choose|v: int| 0 <= v < n && #[trigger] coord(vtx, v, axis) != coord(vtx, 0, axis);
        let x = coord(vtx, v, axis);
        let y = coord(vtx, 0, axis);
        assert(coord(vtx2, v, axis) == s * x);
        assert(coord(vtx2, 0, axis) == s * y);
        assert(s * x != s * y) by (nonlinear_arith)
            requires
                s >= 1,
                x != y,
        ;
    }
    assert(spread(vtx2, 0) && spread(vtx2, 1) && spread(vtx2, 2));
    assert forall|t: int| 0 <= t < indices.len() as int / 3 implies #[trigger] triangle_lean(vtx2, indices, t)
        > 0 by {
        let a = indices[3 * t] as int;
        let b = indices[3 * t + 1] as int;
        let c = indices[3 * t + 2] as int;
        assert(triangle_lean(vtx, indices, t) > 0);
        lemma_scaled_normal(vtx, vtx2, s, a, b, c, 0);
        lemma_scaled_normal(vtx, vtx2, s, a, b, c, 1);
        lemma_scaled_normal(vtx, vtx2, s, a, b, c, 2);
        let nx = normal(vtx, a, b, c, 0);
        let ny = normal(vtx, a, b, c, 1);
        let nz = normal(vtx, a, b, c, 2);
        lemma_scaled_away(vtx, vtx2, s, a, nx, ny, nz, s * s);
        let l = lean(vtx, a, b, c);
        assert(s * s * s * l > 0) by (nonlinear_arith)
            requires
                s >= 1,
                l > 0,
        ;
    }
    lemma_faces_in_bounds(polygons, 0, n);
    assert forall|f: int| 0 <= f < face_count(polygons, 0) implies #[trigger] plane_away(vtx2, polygons, planes2, f)
        > 0 by {
        let corner = polygons[face_at(polygons, 0, f) + 1] as int;
        assert(plane_away(vtx, polygons, planes, f) > 0);
        let nx = planes[4 * f] as int;
        let ny = planes[4 * f + 1] as int;
        let nz = planes[4 * f + 2] as int;
        assert(planes2[4 * f] == nx);
        assert(planes2[4 * f + 1] == ny);
        assert(planes2[4 * f + 2] == nz);
        lemma_scaled_away(vtx, vtx2, s, corner, nx, ny, nz, 1);
        let l = away(vtx, corner, nx, ny, nz);
        assert(1 * nx == nx && 1 * ny == ny && 1 * nz == nz);
        assert(1 * s * l > 0) by (nonlinear_arith)
            requires
                s >= 1,
                l > 0,
        ;
    }
}

/// In a sound face list every face starts within the list, and its first
/// corner names a vertex.
pub proof fn lemma_faces_in_bounds(polygons: Seq<u32>, at: int, count: int)
    requires
        faces_ok(polygons, at, count),
    ensures
        forall|f: int|
            0 <= f < face_count(polygons, at) ==> {
                let start = #[trigger] face_at(polygons, at, f);
                at <= start && start + 3 < polygons.len() && polygons[start + 1] < count
            },
    decreases polygons.len() - at,
{
    if at < polygons.len() {
        let next = at + 1 + polygons[at];
        lemma_faces_in_bounds(polygons, next, count);
        assert forall|f: int| 0 <= f < face_count(polygons, at) implies {
            let start = #[trigger] face_at(polygons, at, f);
            at <= start && start + 3 < polygons.len() && polygons[start + 1] < count
        } by {
            if f > 0 {
                assert(face_at(polygons, at, f) == face_at(polygons, next, f - 1));
            }
        }
    }
}


/// The entries of a table, each times `s`.
fn scale_all<const N: usize>(table: &[i32; N], s: i32) -> (r: Vec<i32>)
    requires
        1 <= s <= MAX_SCALE,
        forall|i: int| 0 <= i < N ==> -MAX_BASE <= #[trigger] table@[i] <= MAX_BASE,
    ensures
        scaled(table@, r@, s as int),
        in_range(r@),
{
    let mut r: Vec<i32> = Vec::new();
    let mut i: usize = 0;
    while i < N
        invariant
            0 <= i <= N,
            1 <= s <= MAX_SCALE,
            forall|k: int| 0 <= k < N ==> -MAX_BASE <= #[trigger] table@[k] <= MAX_BASE,
            r@.len() == i,
            forall|k: int| 0 <= k < i ==> #[trigger] r@[k] == s * table@[k],
            forall|k: int| 0 <= k < i ==> -MAX_COORD <= #[trigger] r@[k] <= MAX_COORD,
        decreases N - i,
    {
        let c = table[i];
        assert(-1_000_000_000 <= s * c <= 1_000_000_000) by (nonlinear_arith)
            requires
                1 <= s <= 50_000,
                -20_000 <= c <= 20_000,
        ;
        r.push(s * c);
        i = i + 1;
    }
    r
}

/// The planes of a table, each offset times `s`.
fn scale_offsets<const N: usize>(table: &[i32; N], s: i32) -> (r: Vec<i32>)
    requires
        1 <= s <= MAX_SCALE,
        forall|i: int| 0 <= i < N ==> -MAX_BASE <= #[trigger] table@[i] <= MAX_BASE,
    ensures
        planes_scaled(table@, r@, s as int),
{
    let mut r: Vec<i32> = Vec::new();
    let mut i: usize = 0;
    while i < N
        invariant
            0 <= i <= N,
            1 <= s <= MAX_SCALE,
            forall|k: int| 0 <= k < N ==> -MAX_BASE <= #[trigger] table@[k] <= MAX_BASE,
            r@.len() == i,
            forall|k: int|
                0 <= k < i ==> #[trigger] r@[k] == (if k % 4 == 3 {
                    s * table@[k]
                } else {
                    table@[k] as int
                }),
        decreases N - i,
    {
        let c = table[i];
        if i % 4 == 3 {
            assert(-1_000_000_000 <= s * c <= 1_000_000_000) by (nonlinear_arith)
                requires
                    1 <= s <= 50_000,
                    -20_000 <= c <= 20_000,
            ;
            r.push(s * c);
        } else {
            r.push(c);
        }
        i = i + 1;
    }
    r
}

/// The entries of a table of indices.
fn copy_all<const N: usize>(table: &[u32; N]) -> (r: Vec<u32>)
    ensures
        r@ == table@,
{
    let mut r: Vec<u32> = Vec::new();
    let mut i: usize = 0;
    while i < N
        invariant
            0 <= i <= N,
            r@.len() == i,
            forall|k: int| 0 <= k < i ==> r@[k] == table@[k],
        decreases N - i,
    {
        r.push(table[i]);
        i = i + 1;
    }
    assert(r@ =~= table@);
    r
}

/// How far a triangle leans outward, from the coordinates of its corners,
/// the number of vertices and the sums of their coordinates.
pub open spec fn lean_at(
    ax: int,
    ay: int,
    az: int,
    bx: int,
    by: int,
    bz: int,
    cx: int,
    cy: int,
    cz: int,
    n: int,
    sx: int,
    sy: int,
    sz: int,
) -> int {
    ((by - ay) * (cz - az) - (bz - az) * (cy - ay)) * (n * ax - sx) + ((bz - az) * (cx - ax) - (bx - ax) * (cz - az))
        * (n * ay - sy) + ((bx - ax) * (cy - ay) - (by - ay) * (cx - ax)) * (n * az - sz)
}

/// How far a direction at a vertex points away from the centroid, from the
/// coordinates of the vertex, the direction, the number of vertices and the
/// sums of their coordinates.
pub open spec fn away_at(px: int, py: int, pz: int, nx: int, ny: int, nz: int, n: int, sx: int, sy: int, sz: int) -> int {
    nx * (n * px - sx) + ny * (n * py - sy) + nz * (n * pz - sz)
}

/// The lean of a triangle of a buffer, from its coordinates.
pub proof fn lemma_lean_at(vtx: Seq<i32>, a: int, b: int, c: int)
    ensures
        lean(vtx, a, b, c) == lean_at(
            coord(vtx, a, 0),
            coord(vtx, a, 1),
            coord(vtx, a, 2),
            coord(vtx, b, 0),
            coord(vtx, b, 1),
            coord(vtx, b, 2),
            coord(vtx, c, 0),
            coord(vtx, c, 1),
            coord(vtx, c, 2),
            vtx.len() as int / 3,
            axis_sum(vtx, vtx.len() as int / 3, 0),
            axis_sum(vtx, vtx.len() as int / 3, 1),
            axis_sum(vtx, vtx.len() as int / 3, 2),
        ),
{
}

/// How far a direction at a vertex of a buffer points away, from its
/// coordinates.
pub proof fn lemma_away_at(vtx: Seq<i32>, v: int, nx: int, ny: int, nz: int)
    ensures
        away(vtx, v, nx, ny, nz) == away_at(
            coord(vtx, v, 0),
            coord(vtx, v, 1),
            coord(vtx, v, 2),
            nx,
            ny,
            nz,
            vtx.len() as int / 3,
            axis_sum(vtx, vtx.len() as int / 3, 0),
            axis_sum(vtx, vtx.len() as int / 3, 1),
            axis_sum(vtx, vtx.len() as int / 3, 2),
        ),
{
}

/// Fills a descriptor from the table of a valid solid, at `scale` hundredths.
pub(crate) fn fill<const V: usize, const I: usize, const P: usize, const G: usize>(
    ph: &mut Polyhedron,
    vtx: &[i32; V],
    indices: &[u32; I],
    planes: &[i32; P],
    polygons: &[u32; G],
    scale: u32,
)
    requires
        1 <= scale <= MAX_SCALE,
        forall|i: int| 0 <= i < V ==> -MAX_BASE <= #[trigger] vtx@[i] <= MAX_BASE,
        forall|i: int| 0 <= i < P ==> -MAX_BASE <= #[trigger] planes@[i] <= MAX_BASE,
        buffers_valid(vtx@, indices@, planes@, polygons@),
    ensures
        scaled(vtx@, final(ph).vtx@, scale as int),
        planes_scaled(planes@, final(ph).planes@, scale as int),
        final(ph).indices@ == indices@,
        final(ph).polygons@ == polygons@,
        final(ph).r == scale,
        final(ph).valid(),
{
    let s = scale as i32;
    ph.vtx = scale_all(vtx, s);
    ph.planes = scale_offsets(planes, s);
    ph.indices = copy_all(indices);
    ph.polygons = copy_all(polygons);
    ph.r = scale;
    proof {
        lemma_scaling_keeps_valid(vtx@, indices@, planes@, polygons@, s as int, ph.vtx@, ph.planes@);
    }
}

/// Vertices of the tetrahedron of edge one, in ten-thousandths.
pub const TETRA_VTX: [i32; 12] = [5577, -1494, -2041, -1494, 5577, -2041, 0, 0, 6124, -4082, -4082, -2041];

/// Triangles of the tetrahedron.
pub const TETRA_INDICES: [u32; 12] = [3, 1, 0, 3, 2, 1, 3, 0, 2, 2, 0, 1];

/// Face planes of the tetrahedron: unit normals and offsets, in ten-thousandths.
pub const TETRA_PLANES: [i32; 16] = [0, 0, -10000, 2041, -9107, 2440, 3333, 2041, 2440, -9107, 3333, 2041, 6667, 6667, 3334, 2042];

/// Faces of the tetrahedron.
pub const TETRA_POLYGONS: [u32; 16] = [3, 3, 1, 0, 3, 3, 2, 1, 3, 3, 0, 2, 3, 2, 0, 1];


/// Sums of the coordinates of the tetrahedron.
proof fn lemma_tetra_sums()
    ensures
        axis_sum(TETRA_VTX@, 4, 0) == 1,
        axis_sum(TETRA_VTX@, 4, 1) == 1,
        axis_sum(TETRA_VTX@, 4, 2) == 1,
{
    let vtx = TETRA_VTX@;
    reveal_with_fuel(axis_sum, 5);
    assert(axis_sum(vtx, 4, 0) == 1 && axis_sum(vtx, 4, 1) == 1 && axis_sum(vtx, 4, 2) == 1);
}

/// The faces of the tetrahedron, and where each starts.
proof fn lemma_tetra_faces(count: int)
    requires
        count >= 4,
    ensures
        faces_ok(TETRA_POLYGONS@, 0, count),
        face_count(TETRA_POLYGONS@, 0) == 4,
        face_at(TETRA_POLYGONS@, 0, 0) == 0,
        face_at(TETRA_POLYGONS@, 0, 1) == 4,
        face_at(TETRA_POLYGONS@, 0, 2) == 8,
        face_at(TETRA_POLYGONS@, 0, 3) == 12,
{
    let polygons = TETRA_POLYGONS@;
    assert(face_count(polygons, 16) == 0);
    lemma_face_ok(polygons, 12, count);
    assert(face_count(polygons, 12) == 1);
    lemma_face_ok(polygons, 8, count);
    assert(face_count(polygons, 8) == 2);
    lemma_face_ok(polygons, 4, count);
    assert(face_count(polygons, 4) == 3);
    lemma_face_ok(polygons, 0, count);
    assert(face_count(polygons, 0) == 4);
    lemma_face_at_next(polygons, 0, 0);
    assert(face_at(polygons, 0, 1) == 4);
    lemma_face_at_next(polygons, 0, 1);
    assert(face_at(polygons, 0, 2) == 8);
    lemma_face_at_next(polygons, 0, 2);
    assert(face_at(polygons, 0, 3) == 12);
}

/// Triangles 0 to 3 of the tetrahedron lean outward.
proof fn lemma_tetra_triangles_0(t: int)
    requires
        0 <= t < 4,
    ensures
        triangle_lean(TETRA_VTX@, TETRA_INDICES@, t) > 0,
{
    let vtx = TETRA_VTX@;
    lemma_tetra_sums();
    assert(lean_at(-4082, -4082, -2041, -1494, 5577, -2041, 5577, -1494, -2041, 4, 1, 1, 1) > 0
        && lean_at(-4082, -4082, -2041, 0, 0, 6124, -1494, 5577, -2041, 4, 1, 1, 1) > 0
        && lean_at(-4082, -4082, -2041, 5577, -1494, -2041, 0, 0, 6124, 4, 1, 1, 1) > 0
        && lean_at(0, 0, 6124, 5577, -1494, -2041, -1494, 5577, -2041, 4, 1, 1, 1) > 0) by (nonlinear_arith);
    if t == 0 {
        lemma_lean_at(vtx, 3, 1, 0);
    } else if t == 1 {
        lemma_lean_at(vtx, 3, 2, 1);
    } else if t == 2 {
        lemma_lean_at(vtx, 3, 0, 2);
    } else if t == 3 {
        lemma_lean_at(vtx, 2, 0, 1);
    }
}

/// Planes 0 to 3 of the tetrahedron look outward.
proof fn lemma_tetra_planes_0(f: int)
    requires
        0 <= f < 4,
    ensures
        plane_away(TETRA_VTX@, TETRA_POLYGONS@, TETRA_PLANES@, f) > 0,
{
    let vtx = TETRA_VTX@;
    lemma_tetra_sums();
    lemma_tetra_faces(4);
    assert(away_at(-4082, -4082, -2041, 0, 0, -10000, 4, 1, 1, 1) > 0
        && away_at(-4082, -4082, -2041, -9107, 2440, 3333, 4, 1, 1, 1) > 0
        && away_at(-4082, -4082, -2041, 2440, -9107, 3333, 4, 1, 1, 1) > 0
        && away_at(0, 0, 6124, 6667, 6667, 3334, 4, 1, 1, 1) > 0) by (nonlinear_arith);
    if f == 0 {
        lemma_away_at(vtx, 3, 0, 0, -10000);
    } else if f == 1 {
        lemma_away_at(vtx, 3, -9107, 2440, 3333);
    } else if f == 2 {
        lemma_away_at(vtx, 3, 2440, -9107, 3333);
    } else if f == 3 {
        lemma_away_at(vtx, 2, 6667, 6667, 3334);
    }
}

/// The table of the tetrahedron is the descriptor of a solid whose faces look
/// outward.
pub proof fn lemma_tetra_table()
    ensures
        buffers_valid(TETRA_VTX@, TETRA_INDICES@, TETRA_PLANES@, TETRA_POLYGONS@),
{
    let vtx = TETRA_VTX@;
    let indices = TETRA_INDICES@;
    let planes = TETRA_PLANES@;
    let polygons = TETRA_POLYGONS@;
    lemma_tetra_faces(4);
    assert(coord(vtx, 1, 0) != coord(vtx, 0, 0));
    assert(coord(vtx, 1, 1) != coord(vtx, 0, 1));
    assert(coord(vtx, 2, 2) != coord(vtx, 0, 2));
    assert forall|t: int| 0 <= t < 4 implies #[trigger] triangle_lean(vtx, indices, t) > 0 by {
        if t < 4 {
            lemma_tetra_triangles_0(t);
        }
    }
    assert forall|f: int| 0 <= f < 4 implies #[trigger] plane_away(vtx, polygons, planes, f) > 0 by {
        if f < 4 {
            lemma_tetra_planes_0(f);
        }
    }
}

impl Polyhedron {
    /// Fills the descriptor with the regular tetrahedron of edge one at
    /// `scale` hundredths. `Err`, and nothing changed, for a scale of zero
    /// or above `MAX_SCALE`; else the descriptor is valid.
    pub fn from_phf(&mut self, scale: u32) -> (r: Result<(), GeometryError>)
        ensures
            r == (if 1 <= scale <= MAX_SCALE {
                Ok::<(), GeometryError>(())
            } else {
                Err(GeometryError::Scale)
            }),
            r is Err ==> *final(self) == *old(self),
            r is Ok ==> {
                &&& scaled(TETRA_VTX@, final(self).vtx@, scale as int)
                &&& planes_scaled(TETRA_PLANES@, final(self).planes@, scale as int)
                &&& final(self).indices@ == TETRA_INDICES@
                &&& final(self).polygons@ == TETRA_POLYGONS@
                &&& final(self).r == scale
                &&& final(self).valid()
            },
    {
        if scale < 1 || scale > MAX_SCALE {
            return Err(GeometryError::Scale);
        }
        proof {
            lemma_tetra_table();
        }
        fill(self, &TETRA_VTX, &TETRA_INDICES, &TETRA_PLANES, &TETRA_POLYGONS, scale);
        Ok(())
    }
}

} // verus!
