//! Geometry descriptors in exact arithmetic: flat buffers of whole-number
//! coordinates, and the rules that make them fit for collision.
//!
//! A coordinate counts millionths of a length unit. A triangle leans outward
//! when its normal, taken from its winding, points away from the centroid of
//! the vertices; both are decided without rounding.

use vstd::prelude::*;

verus! {

/// Coordinates per length unit.
pub const UNIT: i32 = 1_000_000;

/// Largest magnitude of a coordinate.
pub const MAX_COORD: i32 = 0x3fff_ffff;

/// Most vertices in one descriptor.
pub const MAX_VERTICES: usize = 0x1_0000;

/// Why buffers are no descriptor.
#[derive(Debug, Clone, Copy, PartialEq, Eq, Structural)]
pub enum GeometryError {
    /// The scale is zero or too large.
    Scale,
    /// There is no table of the solid.
    NoTable,
    /// No vertex, no triangle or no face.
    Empty,
    /// A buffer's length is no multiple of its record, there are too many
    /// vertices, or the planes are not one per face.
    Ragged,
    /// A coordinate is out of range.
    Range,
    /// A triangle names a vertex that is not there.
    Index,
    /// The face list is cut short, or a face has under three corners or
    /// names a vertex that is not there.
    Polygon,
    /// All vertices agree in one coordinate.
    Flat,
    /// A triangle or a plane normal does not point away from the centroid.
    Inward,
}

/// Geometry buffers of one solid.
#[derive(Debug)]
pub struct Polyhedron {
    /// Triangles, three vertex indices each.
    pub indices: Vec<u32>,
    /// Face planes, four numbers each: the normal, then the offset.
    pub planes: Vec<i32>,
    /// Vertices, three coordinates each.
    pub vtx: Vec<i32>,
    /// Faces of the convex hull: a corner count, then that many vertex indices.
    pub polygons: Vec<u32>,
    /// Ratio by which the solid was scaled, in hundredths.
    pub r: u32,
}

/// Coordinate `axis` of vertex `v`.
pub open spec fn coord(vtx: Seq<i32>, v: int, axis: int) -> int {
    vtx[3 * v + axis] as int
}

/// Sum of coordinate `axis` over the first `n` vertices.
pub open spec fn axis_sum(vtx: Seq<i32>, n: int, axis: int) -> int
    decreases n,
{
    if n <= 0 {
        0
    } else {
        axis_sum(vtx, n - 1, axis) + coord(vtx, n - 1, axis)
    }
}

/// How far the direction `(nx, ny, nz)` at vertex `v` points away from the
/// centroid: the direction times the vector from the centroid to the vertex,
/// times the number of vertices.
pub open spec fn away(vtx: Seq<i32>, v: int, nx: int, ny: int, nz: int) -> int {
    let n = vtx.len() as int / 3;
    nx * (n * coord(vtx, v, 0) - axis_sum(vtx, n, 0)) + ny * (n * coord(vtx, v, 1) - axis_sum(vtx, n, 1)) + nz * (n
        * coord(vtx, v, 2) - axis_sum(vtx, n, 2))
}

/// One component of the normal that the winding `a`, `b`, `c` gives: the
/// cross product of the edges from `a`, along `axis`.
pub open spec fn normal(vtx: Seq<i32>, a: int, b: int, c: int, axis: int) -> int {
    let j = (axis + 1) % 3;
    let k = (axis + 2) % 3;
    (coord(vtx, b, j) - coord(vtx, a, j)) * (coord(vtx, c, k) - coord(vtx, a, k)) - (coord(vtx, b, k) - coord(vtx, a, k))
        * (coord(vtx, c, j) - coord(vtx, a, j))
}

/// How far the triangle `a`, `b`, `c` leans outward; positive when its normal
/// points away from the centroid.
pub open spec fn lean(vtx: Seq<i32>, a: int, b: int, c: int) -> int {
    away(vtx, a, normal(vtx, a, b, c, 0), normal(vtx, a, b, c, 1), normal(vtx, a, b, c, 2))
}

/// Every coordinate is in range.
pub open spec fn in_range(vtx: Seq<i32>) -> bool {
    forall|i: int| 0 <= i < vtx.len() ==> -MAX_COORD <= #[trigger] vtx[i] <= MAX_COORD
}

/// Every triangle corner is a vertex.
pub open spec fn indexed(indices: Seq<u32>, count: int) -> bool {
    forall|i: int| 0 <= i < indices.len() ==> (#[trigger] indices[i]) < count
}

/// How far triangle `t` of the list leans outward.
pub open spec fn triangle_lean(vtx: Seq<i32>, indices: Seq<u32>, t: int) -> int {
    lean(vtx, indices[3 * t] as int, indices[3 * t + 1] as int, indices[3 * t + 2] as int)
}

/// Every triangle leans outward.
pub open spec fn triangles_outward(vtx: Seq<i32>, indices: Seq<u32>) -> bool {
    forall|t: int| 0 <= t < indices.len() as int / 3 ==> #[trigger] triangle_lean(vtx, indices, t) > 0
}

/// The faces from offset `at` on are whole, have three corners or more, and
/// name vertices below `count`.
pub open spec fn faces_ok(polygons: Seq<u32>, at: int, count: int) -> bool
    decreases polygons.len() - at,
{
    if at < 0 || at > polygons.len() {
        false
    } else if at == polygons.len() {
        true
    } else {
        &&& polygons[at] >= 3
        &&& at + 1 + polygons[at] <= polygons.len()
        &&& forall|k: int| at < k <= at + polygons[at] ==> (#[trigger] polygons[k]) < count
        &&& faces_ok(polygons, at + 1 + polygons[at], count)
    }
}

/// Number of whole faces from offset `at` on.
pub open spec fn face_count(polygons: Seq<u32>, at: int) -> nat
    decreases polygons.len() - at,
{
    if at < 0 || at >= polygons.len() || at + 1 + polygons[at] > polygons.len() {
        0
    } else {
        1 + face_count(polygons, at + 1 + polygons[at])
    }
}

/// Offset of face `f`, counted from the face at offset `at`.
pub open spec fn face_at(polygons: Seq<u32>, at: int, f: int) -> int
    decreases f,
{
    if f <= 0 {
        at
    } else {
        face_at(polygons, at + 1 + polygons[at], f - 1)
    }
}

/// How far the normal of the plane of face `f` points away from the
/// centroid, seen from the first corner of the face.
pub open spec fn plane_away(vtx: Seq<i32>, polygons: Seq<u32>, planes: Seq<i32>, f: int) -> int {
    away(
        vtx,
        polygons[face_at(polygons, 0, f) + 1] as int,
        planes[4 * f] as int,
        planes[4 * f + 1] as int,
        planes[4 * f + 2] as int,
    )
}

/// The normal of every face plane points away from the centroid.
pub open spec fn planes_outward(vtx: Seq<i32>, polygons: Seq<u32>, planes: Seq<i32>) -> bool {
    forall|f: int| 0 <= f < face_count(polygons, 0) ==> #[trigger] plane_away(vtx, polygons, planes, f) > 0
}

/// The vertices do not all agree in coordinate `axis`.
pub open spec fn spread(vtx: Seq<i32>, axis: int) -> bool {
    exists|v: int| 0 <= v < vtx.len() as int / 3 && #[trigger] coord(vtx, v, axis) != coord(vtx, 0, axis)
}


/// Sum of one coordinate over all vertices.
fn sum_axis(vtx: &Vec<i32>, axis: usize) -> (s: i64)
    requires
        vtx@.len() % 3 == 0,
        vtx@.len() as int / 3 <= MAX_VERTICES,
        in_range(vtx@),
        axis < 3,
    ensures
        s == axis_sum(vtx@, vtx@.len() as int / 3, axis as int),
        -(MAX_VERTICES * MAX_COORD) <= s <= MAX_VERTICES * MAX_COORD,
{
    let n = vtx.len() / 3;
    let mut s: i64 = 0;
    let mut v: usize = 0;
    while v < n
        invariant
            0 <= v <= n,
            n == vtx@.len() as int / 3,
            vtx@.len() % 3 == 0,
            n <= MAX_VERTICES,
            in_range(vtx@),
            axis < 3,
            s == axis_sum(vtx@, v as int, axis as int),
            -(v * MAX_COORD) <= s <= v * MAX_COORD,
        decreases n - v,
    {
        let c = vtx[3 * v + axis];
        s = s + c as i64;
        v = v + 1;
    }
    s
}

/// Whether the vertices differ in one coordinate.
fn has_spread(vtx: &Vec<i32>, axis: usize) -> (r: bool)
    requires
        vtx@.len() % 3 == 0,
        vtx@.len() > 0,
        axis < 3,
    ensures
        r == spread(vtx@, axis as int),
{
    let n = vtx.len() / 3;
    let first = vtx[axis];
    let mut v: usize = 1;
    while v < n
        invariant
            1 <= v <= n,
            n == vtx@.len() as int / 3,
            vtx@.len() % 3 == 0,
            vtx@.len() <= usize::MAX,
            axis < 3,
            first == coord(vtx@, 0, axis as int),
            forall|w: int| 0 <= w < v ==> #[trigger] coord(vtx@, w, axis as int) == first,
        decreases n - v,
    {
        assert(vtx@.len() == 3 * n);
        if vtx[3 * v + axis] != first {
            assert(coord(vtx@, v as int, axis as int) != coord(vtx@, 0, axis as int));
            return true;
        }
        v = v + 1;
    }
    false
}

/// Bound of a component of a direction.
pub open spec fn max_direction() -> int {
    0x8000_0000_0000_0000
}

/// How far a direction at a vertex points away from the centroid.
fn away_of(vtx: &Vec<i32>, sums: (i64, i64, i64), v: usize, nx: i128, ny: i128, nz: i128) -> (r: i128)
    requires
        vtx@.len() % 3 == 0,
        vtx@.len() as int / 3 <= MAX_VERTICES,
        in_range(vtx@),
        v < vtx@.len() as int / 3,
        sums.0 == axis_sum(vtx@, vtx@.len() as int / 3, 0),
        sums.1 == axis_sum(vtx@, vtx@.len() as int / 3, 1),
        sums.2 == axis_sum(vtx@, vtx@.len() as int / 3, 2),
        -(MAX_VERTICES * MAX_COORD) <= sums.0 <= MAX_VERTICES * MAX_COORD,
        -(MAX_VERTICES * MAX_COORD) <= sums.1 <= MAX_VERTICES * MAX_COORD,
        -(MAX_VERTICES * MAX_COORD) <= sums.2 <= MAX_VERTICES * MAX_COORD,
        -max_direction() <= nx <= max_direction(),
        -max_direction() <= ny <= max_direction(),
        -max_direction() <= nz <= max_direction(),
    ensures
        r == away(vtx@, v as int, nx as int, ny as int, nz as int),
{
    assert(vtx@.len() == 3 * (vtx@.len() as int / 3));
    let n: i128 = (vtx.len() / 3) as i128;
    let px: i128 = vtx[3 * v] as i128;
    let py: i128 = vtx[3 * v + 1] as i128;
    let pz: i128 = vtx[3 * v + 2] as i128;
    assert(-0x4000_0000_0000 <= n * px <= 0x4000_0000_0000) by (nonlinear_arith)
        requires
            0 <= n <= 0x1_0000,
            -0x4000_0000 <= px <= 0x4000_0000,
    ;
    assert(-0x4000_0000_0000 <= n * py <= 0x4000_0000_0000) by (nonlinear_arith)
        requires
            0 <= n <= 0x1_0000,
            -0x4000_0000 <= py <= 0x4000_0000,
    ;
    assert(-0x4000_0000_0000 <= n * pz <= 0x4000_0000_0000) by (nonlinear_arith)
        requires
            0 <= n <= 0x1_0000,
            -0x4000_0000 <= pz <= 0x4000_0000,
    ;
    let dx: i128 = n * px - sums.0 as i128;
    let dy: i128 = n * py - sums.1 as i128;
    let dz: i128 = n * pz - sums.2 as i128;
    assert(-0x4000_0000_0000_0000_0000_0000_0000 <= nx * dx <= 0x4000_0000_0000_0000_0000_0000_0000) by (nonlinear_arith)
        requires
            -0x8000_0000_0000_0000 <= nx <= 0x8000_0000_0000_0000,
            -0x8000_0000_0000 <= dx <= 0x8000_0000_0000,
    ;
    assert(-0x4000_0000_0000_0000_0000_0000_0000 <= ny * dy <= 0x4000_0000_0000_0000_0000_0000_0000) by (nonlinear_arith)
        requires
            -0x8000_0000_0000_0000 <= ny <= 0x8000_0000_0000_0000,
            -0x8000_0000_0000 <= dy <= 0x8000_0000_0000,
    ;
    assert(-0x4000_0000_0000_0000_0000_0000_0000 <= nz * dz <= 0x4000_0000_0000_0000_0000_0000_0000) by (nonlinear_arith)
        requires
            -0x8000_0000_0000_0000 <= nz <= 0x8000_0000_0000_0000,
            -0x8000_0000_0000 <= dz <= 0x8000_0000_0000,
    ;
    nx * dx + ny * dy + nz * dz
}

/// One component of the normal of a winding.
fn normal_of(vtx: &Vec<i32>, a: usize, b: usize, c: usize, axis: usize) -> (r: i128)
    requires
        vtx@.len() % 3 == 0,
        in_range(vtx@),
        a < vtx@.len() as int / 3,
        b < vtx@.len() as int / 3,
        c < vtx@.len() as int / 3,
        axis < 3,
    ensures
        r == normal(vtx@, a as int, b as int, c as int, axis as int),
        -max_direction() <= r <= max_direction(),
{
    let j = (axis + 1) % 3;
    let k = (axis + 2) % 3;
    assert(vtx@.len() == 3 * (vtx@.len() as int / 3) && vtx.len() <= usize::MAX);
    let uj: i128 = vtx[3 * b + j] as i128 - vtx[3 * a + j] as i128;
    let uk: i128 = vtx[3 * b + k] as i128 - vtx[3 * a + k] as i128;
    let wj: i128 = vtx[3 * c + j] as i128 - vtx[3 * a + j] as i128;
    let wk: i128 = vtx[3 * c + k] as i128 - vtx[3 * a + k] as i128;
    assert(-0x4000_0000_0000_0000 <= uj * wk <= 0x4000_0000_0000_0000) by (nonlinear_arith)
        requires
            -0x8000_0000 <= uj <= 0x8000_0000,
            -0x8000_0000 <= wk <= 0x8000_0000,
    ;
    assert(-0x4000_0000_0000_0000 <= uk * wj <= 0x4000_0000_0000_0000) by (nonlinear_arith)
        requires
            -0x8000_0000 <= uk <= 0x8000_0000,
            -0x8000_0000 <= wj <= 0x8000_0000,
    ;
    uj * wk - uk * wj
}

/// How far the triangle `a`, `b`, `c` leans outward.
fn lean_of(vtx: &Vec<i32>, sums: (i64, i64, i64), a: usize, b: usize, c: usize) -> (r: i128)
    requires
        vtx@.len() % 3 == 0,
        vtx@.len() as int / 3 <= MAX_VERTICES,
        in_range(vtx@),
        a < vtx@.len() as int / 3,
        b < vtx@.len() as int / 3,
        c < vtx@.len() as int / 3,
        sums.0 == axis_sum(vtx@, vtx@.len() as int / 3, 0),
        sums.1 == axis_sum(vtx@, vtx@.len() as int / 3, 1),
        sums.2 == axis_sum(vtx@, vtx@.len() as int / 3, 2),
        -(MAX_VERTICES * MAX_COORD) <= sums.0 <= MAX_VERTICES * MAX_COORD,
        -(MAX_VERTICES * MAX_COORD) <= sums.1 <= MAX_VERTICES * MAX_COORD,
        -(MAX_VERTICES * MAX_COORD) <= sums.2 <= MAX_VERTICES * MAX_COORD,
    ensures
        r == lean(vtx@, a as int, b as int, c as int),
{
    let nx = normal_of(vtx, a, b, c, 0);
    let ny = normal_of(vtx, a, b, c, 1);
    let nz = normal_of(vtx, a, b, c, 2);
    away_of(vtx, sums, a, nx, ny, nz)
}

/// The buffers have the shape of a descriptor: whole records, a vertex
/// behind every index, one plane for each face.
pub open spec fn buffers_shaped(vtx: Seq<i32>, indices: Seq<u32>, planes: Seq<i32>, polygons: Seq<u32>) -> bool {
    &&& vtx.len() % 3 == 0
    &&& indices.len() % 3 == 0
    &&& planes.len() % 4 == 0
    &&& vtx.len() as int / 3 <= MAX_VERTICES
    &&& in_range(vtx)
    &&& indexed(indices, vtx.len() as int / 3)
    &&& faces_ok(polygons, 0, vtx.len() as int / 3)
    &&& planes.len() == 4 * face_count(polygons, 0)
}

/// The solid has a vertex, a triangle and a face, and extent along each axis.
pub open spec fn buffers_solid(vtx: Seq<i32>, indices: Seq<u32>, polygons: Seq<u32>) -> bool {
    &&& vtx.len() as int / 3 > 0
    &&& indices.len() as int / 3 > 0
    &&& face_count(polygons, 0) > 0
    &&& spread(vtx, 0)
    &&& spread(vtx, 1)
    &&& spread(vtx, 2)
}

/// Triangles and plane normals point away from the centroid.
pub open spec fn buffers_outward(vtx: Seq<i32>, indices: Seq<u32>, planes: Seq<i32>, polygons: Seq<u32>) -> bool {
    &&& triangles_outward(vtx, indices)
    &&& planes_outward(vtx, polygons, planes)
}

/// What the buffers of a star-shaped solid keep.
pub open spec fn buffers_valid(vtx: Seq<i32>, indices: Seq<u32>, planes: Seq<i32>, polygons: Seq<u32>) -> bool {
    &&& buffers_shaped(vtx, indices, planes, polygons)
    &&& buffers_solid(vtx, indices, polygons)
    &&& buffers_outward(vtx, indices, planes, polygons)
}

impl Polyhedron {
    /// Number of vertices.
    pub open spec fn vertices(&self) -> int {
        self.vtx@.len() as int / 3
    }

    /// Number of triangles.
    pub open spec fn triangles(&self) -> int {
        self.indices@.len() as int / 3
    }

    /// Number of faces of the hull.
    pub open spec fn faces(&self) -> nat {
        face_count(self.polygons@, 0)
    }

    /// The buffers have the shape of a descriptor: whole records, a vertex
    /// behind every index, one plane for each face.
    pub open spec fn shaped(&self) -> bool {
        buffers_shaped(self.vtx@, self.indices@, self.planes@, self.polygons@)
    }

    /// The solid has a vertex, a triangle and a face, and extent along each axis.
    pub open spec fn solid(&self) -> bool {
        buffers_solid(self.vtx@, self.indices@, self.polygons@)
    }

    /// Triangles and plane normals point away from the centroid.
    pub open spec fn outward(&self) -> bool {
        buffers_outward(self.vtx@, self.indices@, self.planes@, self.polygons@)
    }

    /// What a descriptor of a star-shaped solid keeps.
    pub open spec fn valid(&self) -> bool {
        self.shaped() && self.solid() && self.outward()
    }

    /// The empty descriptor, at ratio one.
    pub fn void() -> (p: Polyhedron)
        ensures
            p.indices@.len() == 0,
            p.planes@.len() == 0,
            p.vtx@.len() == 0,
            p.polygons@.len() == 0,
            p.r == 100,
            p.shaped(),
            !p.solid(),
    {
        Polyhedron { indices: Vec::new(), planes: Vec::new(), vtx: Vec::new(), polygons: Vec::new(), r: 100 }
    }
}


/// Going one face further from the face at `at`.
pub open spec fn next_face(polygons: Seq<u32>, at: int) -> int {
    at + 1 + polygons[at]
}

/// The face behind face `f` starts where face `f` ends.
pub proof fn lemma_face_at_next(polygons: Seq<u32>, at: int, f: int)
    requires
        f >= 0,
    ensures
        face_at(polygons, at, f + 1) == next_face(polygons, face_at(polygons, at, f)),
    decreases f,
{
    reveal_with_fuel(face_at, 2);
    if f > 0 {
        lemma_face_at_next(polygons, next_face(polygons, at), f - 1);
    }
}

/// A face of six corners at most that is whole, names vertices and is
/// followed by sound faces starts a sound face list.
pub proof fn lemma_face_ok(polygons: Seq<u32>, at: int, count: int)
    requires
        0 <= at < polygons.len(),
        3 <= polygons[at] <= 6,
        at + 1 + polygons[at] <= polygons.len(),
        polygons[at + 1] < count,
        polygons[at + 2] < count,
        polygons[at + 3] < count,
        polygons[at] >= 4 ==> polygons[at + 4] < count,
        polygons[at] >= 5 ==> polygons[at + 5] < count,
        polygons[at] >= 6 ==> polygons[at + 6] < count,
        faces_ok(polygons, at + 1 + polygons[at], count),
    ensures
        faces_ok(polygons, at, count),
{
    assert forall|k: int| at < k <= at + polygons[at] implies (#[trigger] polygons[k]) < count by {
        if k == at + 1 {
        } else if k == at + 2 {
        } else if k == at + 3 {
        } else if k == at + 4 {
        } else if k == at + 5 {
        } else {
        }
    }
}

/// Faces that are whole up to face `f` count as `f` and what follows.
pub proof fn lemma_face_count_from(polygons: Seq<u32>, at: int, f: int)
    requires
        f >= 0,
        0 <= at,
        forall|g: int|
            0 <= g < f ==> 0 <= #[trigger] face_at(polygons, at, g) < polygons.len() && next_face(
                polygons,
                face_at(polygons, at, g),
            ) <= polygons.len(),
    ensures
        face_count(polygons, at) == f + face_count(polygons, face_at(polygons, at, f)),
    decreases f,
{
    if f > 0 {
        assert(face_at(polygons, at, 0) == at);
        let nx = next_face(polygons, at);
        assert forall|g: int| 0 <= g < f - 1 implies 0 <= #[trigger] face_at(polygons, nx, g) < polygons.len()
            && next_face(polygons, face_at(polygons, nx, g)) <= polygons.len() by {
            assert(face_at(polygons, at, g + 1) == face_at(polygons, nx, g));
        }
        lemma_face_count_from(polygons, nx, f - 1);
    }
}

impl Polyhedron {
    /// The first rule that the buffers break, taken in a fixed order; `None`
    /// where they break none.
    pub open spec fn fault(&self) -> Option<GeometryError> {
        if self.vtx@.len() % 3 != 0 || self.indices@.len() % 3 != 0 || self.planes@.len() % 4 != 0 || self.vertices()
            > MAX_VERTICES {
            Some(GeometryError::Ragged)
        } else if self.vtx@.len() == 0 || self.indices@.len() == 0 || self.polygons@.len() == 0 {
            Some(GeometryError::Empty)
        } else if !in_range(self.vtx@) {
            Some(GeometryError::Range)
        } else if !indexed(self.indices@, self.vertices()) {
            Some(GeometryError::Index)
        } else if !faces_ok(self.polygons@, 0, self.vertices()) {
            Some(GeometryError::Polygon)
        } else if self.planes@.len() != 4 * self.faces() {
            Some(GeometryError::Ragged)
        } else if !(spread(self.vtx@, 0) && spread(self.vtx@, 1) && spread(self.vtx@, 2)) {
            Some(GeometryError::Flat)
        } else if !self.outward() {
            Some(GeometryError::Inward)
        } else {
            None
        }
    }

    /// Buffers break no rule exactly when they are a valid descriptor.
    pub proof fn lemma_fault_free(&self)
        ensures
            self.fault() is None <==> self.valid(),
    {
        if self.polygons@.len() > 0 && faces_ok(self.polygons@, 0, self.vertices()) {
            assert(self.faces() > 0);
        }
        if self.polygons@.len() == 0 {
            assert(self.faces() == 0);
        }
    }

    /// Whether every coordinate is in range.
    fn check_range(&self) -> (r: bool)
        ensures
            r == in_range(self.vtx@),
    {
        let mut i: usize = 0;
        while i < self.vtx.len()
            invariant
                0 <= i <= self.vtx@.len(),
                forall|k: int| 0 <= k < i ==> -MAX_COORD <= #[trigger] self.vtx@[k] <= MAX_COORD,
            decreases self.vtx@.len() - i,
        {
            let c = self.vtx[i];
            if c < -MAX_COORD || c > MAX_COORD {
                return false;
            }
            i = i + 1;
        }
        true
    }

    /// Whether every triangle corner is a vertex.
    fn check_indexed(&self) -> (r: bool)
        ensures
            r == indexed(self.indices@, self.vertices()),
    {
        let count = self.vtx.len() / 3;
        let mut i: usize = 0;
        while i < self.indices.len()
            invariant
                0 <= i <= self.indices@.len(),
                count == self.vertices(),
                forall|k: int| 0 <= k < i ==> (#[trigger] self.indices@[k]) < count,
            decreases self.indices@.len() - i,
        {
            if self.indices[i] as usize >= count {
                return false;
            }
            i = i + 1;
        }
        true
    }

    /// The number of faces, where the face list is sound.
    fn check_faces(&self) -> (r: Option<usize>)
        ensures
            r is Some <==> faces_ok(self.polygons@, 0, self.vertices()),
            r is Some ==> r->0 == self.faces(),
    {
        let count = self.vtx.len() / 3;
        let len = self.polygons.len();
        let mut at: usize = 0;
        let mut f: usize = 0;
        while at < len
            invariant
                0 <= at <= len,
                0 <= f <= at,
                len == self.polygons@.len(),
                count == self.vertices(),
                faces_ok(self.polygons@, 0, count as int) == faces_ok(self.polygons@, at as int, count as int),
                face_at(self.polygons@, 0, f as int) == at,
                forall|g: int|
                    0 <= g < f ==> 0 <= #[trigger] face_at(self.polygons@, 0, g) < len && next_face(
                        self.polygons@,
                        face_at(self.polygons@, 0, g),
                    ) <= len,
            decreases len - at,
        {
            let n = self.polygons[at] as usize;
            if n < 3 || n > len - at - 1 {
                return None;
            }
            let mut k: usize = at + 1;
            while k <= at + n
                invariant
                    at < k <= at + n + 1,
                    at + n < len,
                    len == self.polygons@.len(),
                    n == self.polygons@[at as int],
                    n >= 3,
                    count == self.vertices(),
                    faces_ok(self.polygons@, 0, count as int) == faces_ok(self.polygons@, at as int, count as int),
                    forall|j: int| at < j < k ==> (#[trigger] self.polygons@[j]) < count,
                decreases at + n + 1 - k,
            {
                if self.polygons[k] as usize >= count {
                    return None;
                }
                k = k + 1;
            }
            proof {
                lemma_face_at_next(self.polygons@, 0, f as int);
            }
            at = at + 1 + n;
            f = f + 1;
        }
        proof {
            lemma_face_count_from(self.polygons@, 0, f as int);
        }
        Some(f)
    }

    /// Whether every triangle leans outward.
    fn check_triangles(&self, sums: (i64, i64, i64)) -> (r: bool)
        requires
            self.vtx@.len() % 3 == 0,
            self.indices@.len() % 3 == 0,
            self.vertices() <= MAX_VERTICES,
            in_range(self.vtx@),
            indexed(self.indices@, self.vertices()),
            sums.0 == axis_sum(self.vtx@, self.vertices(), 0),
            sums.1 == axis_sum(self.vtx@, self.vertices(), 1),
            sums.2 == axis_sum(self.vtx@, self.vertices(), 2),
            -(MAX_VERTICES * MAX_COORD) <= sums.0 <= MAX_VERTICES * MAX_COORD,
            -(MAX_VERTICES * MAX_COORD) <= sums.1 <= MAX_VERTICES * MAX_COORD,
            -(MAX_VERTICES * MAX_COORD) <= sums.2 <= MAX_VERTICES * MAX_COORD,
        ensures
            r == triangles_outward(self.vtx@, self.indices@),
    {
        let count = self.indices.len() / 3;
        let mut t: usize = 0;
        while t < count
            invariant
                0 <= t <= count,
                count == self.triangles(),
                self.vtx@.len() % 3 == 0,
                self.indices@.len() % 3 == 0,
                self.indices@.len() <= usize::MAX,
                self.vertices() <= MAX_VERTICES,
                in_range(self.vtx@),
                indexed(self.indices@, self.vertices()),
                sums.0 == axis_sum(self.vtx@, self.vertices(), 0),
                sums.1 == axis_sum(self.vtx@, self.vertices(), 1),
                sums.2 == axis_sum(self.vtx@, self.vertices(), 2),
                -(MAX_VERTICES * MAX_COORD) <= sums.0 <= MAX_VERTICES * MAX_COORD,
                -(MAX_VERTICES * MAX_COORD) <= sums.1 <= MAX_VERTICES * MAX_COORD,
                -(MAX_VERTICES * MAX_COORD) <= sums.2 <= MAX_VERTICES * MAX_COORD,
                forall|u: int| 0 <= u < t ==> #[trigger] triangle_lean(self.vtx@, self.indices@, u) > 0,
            decreases count - t,
        {
            assert(self.indices@.len() == 3 * count);
            let a = self.indices[3 * t] as usize;
            let b = self.indices[3 * t + 1] as usize;
            let c = self.indices[3 * t + 2] as usize;
            if lean_of(&self.vtx, sums, a, b, c) <= 0 {
                assert(triangle_lean(self.vtx@, self.indices@, t as int) <= 0);
                return false;
            }
            t = t + 1;
        }
        true
    }

    /// Whether every plane normal points away from the centroid.
    fn check_planes(&self, sums: (i64, i64, i64), faces: usize) -> (r: bool)
        requires
            self.vtx@.len() % 3 == 0,
            self.vertices() <= MAX_VERTICES,
            in_range(self.vtx@),
            faces_ok(self.polygons@, 0, self.vertices()),
            faces == self.faces(),
            self.planes@.len() == 4 * faces,
            sums.0 == axis_sum(self.vtx@, self.vertices(), 0),
            sums.1 == axis_sum(self.vtx@, self.vertices(), 1),
            sums.2 == axis_sum(self.vtx@, self.vertices(), 2),
            -(MAX_VERTICES * MAX_COORD) <= sums.0 <= MAX_VERTICES * MAX_COORD,
            -(MAX_VERTICES * MAX_COORD) <= sums.1 <= MAX_VERTICES * MAX_COORD,
            -(MAX_VERTICES * MAX_COORD) <= sums.2 <= MAX_VERTICES * MAX_COORD,
        ensures
            r == planes_outward(self.vtx@, self.polygons@, self.planes@),
    {
        let len = self.polygons.len();
        let planes_len = self.planes.len();
        let mut at: usize = 0;
        let mut f: usize = 0;
        while f < faces
            invariant
                0 <= f <= faces,
                0 <= at <= len,
                len == self.polygons@.len(),
                self.vtx@.len() % 3 == 0,
                self.vertices() <= MAX_VERTICES,
                in_range(self.vtx@),
                faces_ok(self.polygons@, at as int, self.vertices()),
                faces == self.faces(),
                faces == f + face_count(self.polygons@, at as int),
                self.planes@.len() == 4 * faces,
                self.planes@.len() == planes_len,
                face_at(self.polygons@, 0, f as int) == at,
                sums.0 == axis_sum(self.vtx@, self.vertices(), 0),
                sums.1 == axis_sum(self.vtx@, self.vertices(), 1),
                sums.2 == axis_sum(self.vtx@, self.vertices(), 2),
                -(MAX_VERTICES * MAX_COORD) <= sums.0 <= MAX_VERTICES * MAX_COORD,
                -(MAX_VERTICES * MAX_COORD) <= sums.1 <= MAX_VERTICES * MAX_COORD,
                -(MAX_VERTICES * MAX_COORD) <= sums.2 <= MAX_VERTICES * MAX_COORD,
                forall|g: int| 0 <= g < f ==> #[trigger] plane_away(self.vtx@, self.polygons@, self.planes@, g) > 0,
            decreases faces - f,
        {
            assert(at < len);
            let n = self.polygons[at] as usize;
            let corner = self.polygons[at + 1] as usize;
            let nx = self.planes[4 * f] as i128;
            let ny = self.planes[4 * f + 1] as i128;
            let nz = self.planes[4 * f + 2] as i128;
            if away_of(&self.vtx, sums, corner, nx, ny, nz) <= 0 {
                assert(plane_away(self.vtx@, self.polygons@, self.planes@, f as int) <= 0);
                return false;
            }
            proof {
                lemma_face_at_next(self.polygons@, 0, f as int);
            }
            at = at + 1 + n;
            f = f + 1;
        }
        true
    }

    /// The first rule of shape or extent that the buffers break; `None`
    /// where they break none. Which way the faces look is not asked.
    pub open spec fn shape_fault(&self) -> Option<GeometryError> {
        if self.fault() == Some(GeometryError::Inward) {
            None
        } else {
            self.fault()
        }
    }

    /// Holds the buffers to the rules of shape and extent, and counts the faces.
    fn check_faces_and_extent(&self) -> (r: Result<usize, GeometryError>)
        ensures
            r is Ok <==> self.shape_fault() is None,
            r is Ok ==> r->Ok_0 == self.faces(),
            r is Err ==> self.shape_fault() == Some(r->Err_0),
    {
        if self.vtx.len() % 3 != 0 || self.indices.len() % 3 != 0 || self.planes.len() % 4 != 0 || self.vtx.len() / 3
            > MAX_VERTICES {
            return Err(GeometryError::Ragged);
        }
        if self.vtx.len() == 0 || self.indices.len() == 0 || self.polygons.len() == 0 {
            return Err(GeometryError::Empty);
        }
        if !self.check_range() {
            return Err(GeometryError::Range);
        }
        if !self.check_indexed() {
            return Err(GeometryError::Index);
        }
        let faces = match self.check_faces() {
            Some(f) => f,
            None => {
                return Err(GeometryError::Polygon);
            },
        };
        if self.planes.len() / 4 != faces {
            return Err(GeometryError::Ragged);
        }
        if !(has_spread(&self.vtx, 0) && has_spread(&self.vtx, 1) && has_spread(&self.vtx, 2)) {
            return Err(GeometryError::Flat);
        }
        Ok(faces)
    }

    /// Holds the buffers to the rules of shape and extent: `Ok` exactly
    /// where they are shaped and solid, else the first rule broken.
    pub fn check_shape(&self) -> (r: Result<(), GeometryError>)
        ensures
            r is Ok <==> self.shaped() && self.solid(),
            r == (match self.shape_fault() {
                None => Ok::<(), GeometryError>(()),
                Some(e) => Err(e),
            }),
    {
        proof {
            self.lemma_fault_free();
        }
        match self.check_faces_and_extent() {
            Ok(_) => Ok(()),
            Err(e) => Err(e),
        }
    }

    /// Holds the buffers to the rules of a descriptor: `Ok` exactly for a
    /// valid descriptor, else the first rule broken.
    pub fn check(&self) -> (r: Result<(), GeometryError>)
        ensures
            r is Ok <==> self.valid(),
            r == (match self.fault() {
                None => Ok::<(), GeometryError>(()),
                Some(e) => Err(e),
            }),
    {
        proof {
            self.lemma_fault_free();
        }
        let faces = match self.check_faces_and_extent() {
            Ok(f) => f,
            Err(e) => {
                return Err(e);
            },
        };
        let sums = (sum_axis(&self.vtx, 0), sum_axis(&self.vtx, 1), sum_axis(&self.vtx, 2));
        if !self.check_triangles(sums) || !self.check_planes(sums, faces) {
            return Err(GeometryError::Inward);
        }
        Ok(())
    }

    /// What a descriptor keeps as the mesh of a solid: shape, extent and,
    /// where the solid is star-shaped, faces that look outward.
    pub open spec fn fits(&self, star_shaped: bool) -> bool {
        self.shaped() && self.solid() && (star_shaped ==> self.outward())
    }

    /// The first rule that the buffers break as the mesh of a solid.
    pub open spec fn fault_as(&self, star_shaped: bool) -> Option<GeometryError> {
        if star_shaped {
            self.fault()
        } else {
            self.shape_fault()
        }
    }

    /// Holds the buffers to the rules for the mesh of a solid: `Ok` exactly
    /// where they fit, else the first rule broken.
    pub fn check_as(&self, star_shaped: bool) -> (r: Result<(), GeometryError>)
        ensures
            r is Ok <==> self.fits(star_shaped),
            r == (match self.fault_as(star_shaped) {
                None => Ok::<(), GeometryError>(()),
                Some(e) => Err(e),
            }),
    {
        if star_shaped {
            self.check()
        } else {
            self.check_shape()
        }
    }
}

} // verus!
