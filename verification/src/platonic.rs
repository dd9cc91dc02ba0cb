//! The cube, plain and centred, the octahedron and the icosahedron, as
//! tables in ten-thousandths. The cube has half its edge as its unit, the
//! octahedron its radius, the icosahedron half its edge.

use vstd::prelude::*;
use crate::geometry::{
    axis_sum, buffers_valid, coord, face_at, face_count, faces_ok, lean, lemma_face_at_next, lemma_face_ok,
    plane_away, triangle_lean,
};
use crate::solids::{away_at, lean_at, lemma_away_at, lemma_lean_at};

verus! {

/// Vertices of the cube, four for each face.
pub const CUBE_VTX: [i32; 72] = [
    10000, -10000, 10000, 10000, -10000, -10000, 10000, 10000, -10000, 10000, 10000, 10000,
    -10000, -10000, 10000, -10000, 10000, 10000, -10000, 10000, -10000, -10000, -10000, -10000,
    10000, 10000, -10000, -10000, 10000, -10000, -10000, 10000, 10000, 10000, 10000, 10000,
    10000, -10000, -10000, 10000, -10000, 10000, -10000, -10000, 10000, -10000, -10000, -10000,
    -10000, 10000, 10000, -10000, -10000, 10000, 10000, -10000, 10000, 10000, 10000, 10000,
    -10000, 10000, -10000, 10000, 10000, -10000, 10000, -10000, -10000, -10000, -10000, -10000,
];

/// Triangles of the cube: each face fanned from its first corner.
pub const CUBE_INDICES: [u32; 36] = [
    0, 1, 2, 0, 2, 3, 4, 5, 6, 4, 6, 7,
    8, 9, 10, 8, 10, 11, 12, 13, 14, 12, 14, 15,
    16, 17, 18, 16, 18, 19, 20, 21, 22, 20, 22, 23,
];

/// Face planes of the cube: unit normals and offsets.
pub const CUBE_PLANES: [i32; 24] = [
    10000, 0, 0, 10000, -10000, 0, 0, 10000, 0, 10000, 0, 10000,
    0, -10000, 0, 10000, 0, 0, 10000, 10000, 0, 0, -10000, 10000,
];

/// Faces of the cube: six squares.
pub const CUBE_POLYGONS: [u32; 30] = [
    4, 0, 1, 2, 3, 4, 4, 5, 6, 7, 4, 8,
    9, 10, 11, 4, 12, 13, 14, 15, 4, 16, 17, 18,
    19, 4, 20, 21, 22, 23,
];

/// Vertices of the centred cube: those of the cube, then the centre of each face.
pub const CUBE_CENTER_VTX: [i32; 90] = [
    10000, -10000, 10000, 10000, -10000, -10000, 10000, 10000, -10000, 10000, 10000, 10000,
    -10000, -10000, 10000, -10000, 10000, 10000, -10000, 10000, -10000, -10000, -10000, -10000,
    10000, 10000, -10000, -10000, 10000, -10000, -10000, 10000, 10000, 10000, 10000, 10000,
    10000, -10000, -10000, 10000, -10000, 10000, -10000, -10000, 10000, -10000, -10000, -10000,
    -10000, 10000, 10000, -10000, -10000, 10000, 10000, -10000, 10000, 10000, 10000, 10000,
    -10000, 10000, -10000, 10000, 10000, -10000, 10000, -10000, -10000, -10000, -10000, -10000,
    10000, 0, 0, -10000, 0, 0, 0, 10000, 0, 0, -10000, 0,
    0, 0, 10000, 0, 0, -10000,
];

/// Triangles of the centred cube: each face fanned from its centre.
pub const CUBE_CENTER_INDICES: [u32; 72] = [
    24, 0, 1, 24, 1, 2, 24, 2, 3, 24, 3, 0,
    25, 4, 5, 25, 5, 6, 25, 6, 7, 25, 7, 4,
    26, 8, 9, 26, 9, 10, 26, 10, 11, 26, 11, 8,
    27, 12, 13, 27, 13, 14, 27, 14, 15, 27, 15, 12,
    28, 16, 17, 28, 17, 18, 28, 18, 19, 28, 19, 16,
    29, 20, 21, 29, 21, 22, 29, 22, 23, 29, 23, 20,
];

/// Vertices of the octahedron.
pub const OCTA_VTX: [i32; 18] = [
    10000, 0, 0, -10000, 0, 0, 0, 10000, 0, 0, -10000, 0,
    0, 0, 10000, 0, 0, -10000,
];

/// Triangles of the octahedron.
pub const OCTA_INDICES: [u32; 24] = [
    0, 2, 4, 0, 4, 3, 0, 3, 5, 0, 5, 2,
    1, 5, 3, 1, 2, 5, 1, 4, 2, 1, 3, 4,
];

/// Face planes of the octahedron: unit normals and offsets.
pub const OCTA_PLANES: [i32; 32] = [
    5774, 5774, 5774, 5774, 5774, -5774, 5774, 5774, 5774, -5774, -5774, 5774,
    5774, 5774, -5774, 5774, -5774, -5774, -5774, 5774, -5774, 5774, -5774, 5774,
    -5774, 5774, 5774, 5774, -5774, -5774, 5774, 5774,
];

/// Faces of the octahedron: eight triangles.
pub const OCTA_POLYGONS: [u32; 32] = [
    3, 0, 2, 4, 3, 0, 4, 3, 3, 0, 3, 5,
    3, 0, 5, 2, 3, 1, 5, 3, 3, 1, 2, 5,
    3, 1, 4, 2, 3, 1, 3, 4,
];

/// Vertices of the icosahedron.
pub const ICOSA_VTX: [i32; 36] = [
    0, -10000, -16180, 0, 10000, -16180, 0, 10000, 16180, 0, -10000, 16180,
    -16180, 0, -10000, -16180, 0, 10000, 16180, 0, 10000, 16180, 0, -10000,
    -10000, -16180, 0, 10000, -16180, 0, 10000, 16180, 0, -10000, 16180, 0,
];

/// Triangles of the icosahedron.
pub const ICOSA_INDICES: [u32; 60] = [
    0, 8, 4, 0, 9, 8, 0, 7, 9, 0, 1, 7,
    4, 1, 0, 4, 11, 1, 4, 5, 11, 8, 5, 4,
    8, 3, 5, 8, 9, 3, 6, 3, 9, 6, 9, 7,
    6, 7, 10, 10, 7, 1, 10, 1, 11, 10, 11, 2,
    2, 11, 5, 2, 5, 3, 2, 3, 6, 2, 6, 10,
];

/// Face planes of the icosahedron: unit normals and offsets.
pub const ICOSA_PLANES: [i32; 80] = [
    -5774, -5774, -5774, 15115, 0, -9342, -3568, 15115, 5774, -5774, -5774, 15115,
    3568, 0, -9342, 15115, -3568, 0, -9342, 15115, -5774, 5774, -5774, 15115,
    -9342, 3568, 0, 15115, -9342, -3568, 0, 15115, -5774, -5774, 5774, 15115,
    0, -9342, 3568, 15115, 5774, -5774, 5774, 15115, 9342, -3568, 0, 15115,
    9342, 3568, 0, 15115, 5774, 5774, -5774, 15115, 0, 9342, -3568, 15115,
    0, 9342, 3568, 15115, -5774, 5774, 5774, 15115, -3568, 0, 9342, 15115,
    3568, 0, 9342, 15115, 5774, 5774, 5774, 15115,
];

/// Faces of the icosahedron: twenty triangles.
pub const ICOSA_POLYGONS: [u32; 80] = [
    3, 0, 8, 4, 3, 0, 9, 8, 3, 0, 7, 9,
    3, 0, 1, 7, 3, 4, 1, 0, 3, 4, 11, 1,
    3, 4, 5, 11, 3, 8, 5, 4, 3, 8, 3, 5,
    3, 8, 9, 3, 3, 6, 3, 9, 3, 6, 9, 7,
    3, 6, 7, 10, 3, 10, 7, 1, 3, 10, 1, 11,
    3, 10, 11, 2, 3, 2, 11, 5, 3, 2, 5, 3,
    3, 2, 3, 6, 3, 2, 6, 10,
];

/// Sums of the coordinates of the cube.
proof fn lemma_cube_sums()
    ensures
        axis_sum(CUBE_VTX@, 24, 0) == 0,
        axis_sum(CUBE_VTX@, 24, 1) == 0,
        axis_sum(CUBE_VTX@, 24, 2) == 0,
{
    let vtx = CUBE_VTX@;
    reveal_with_fuel(axis_sum, 5);
    assert(axis_sum(vtx, 4, 0) == 40000 && axis_sum(vtx, 4, 1) == 0 && axis_sum(vtx, 4, 2) == 0);
    assert(axis_sum(vtx, 8, 0) == 0 && axis_sum(vtx, 8, 1) == 0 && axis_sum(vtx, 8, 2) == 0);
    assert(axis_sum(vtx, 12, 0) == 0 && axis_sum(vtx, 12, 1) == 40000 && axis_sum(vtx, 12, 2) == 0);
    assert(axis_sum(vtx, 16, 0) == 0 && axis_sum(vtx, 16, 1) == 0 && axis_sum(vtx, 16, 2) == 0);
    assert(axis_sum(vtx, 20, 0) == 0 && axis_sum(vtx, 20, 1) == 0 && axis_sum(vtx, 20, 2) == 40000);
    assert(axis_sum(vtx, 24, 0) == 0 && axis_sum(vtx, 24, 1) == 0 && axis_sum(vtx, 24, 2) == 0);
}

/// The faces of the cube, and where each starts.
proof fn lemma_cube_faces(count: int)
    requires
        count >= 24,
    ensures
        faces_ok(CUBE_POLYGONS@, 0, count),
        face_count(CUBE_POLYGONS@, 0) == 6,
        face_at(CUBE_POLYGONS@, 0, 0) == 0,
        face_at(CUBE_POLYGONS@, 0, 1) == 5,
        face_at(CUBE_POLYGONS@, 0, 2) == 10,
        face_at(CUBE_POLYGONS@, 0, 3) == 15,
        face_at(CUBE_POLYGONS@, 0, 4) == 20,
        face_at(CUBE_POLYGONS@, 0, 5) == 25,
{
    let polygons = CUBE_POLYGONS@;
    assert(face_count(polygons, 30) == 0);
    lemma_face_ok(polygons, 25, count);
    assert(face_count(polygons, 25) == 1);
    lemma_face_ok(polygons, 20, count);
    assert(face_count(polygons, 20) == 2);
    lemma_face_ok(polygons, 15, count);
    assert(face_count(polygons, 15) == 3);
    lemma_face_ok(polygons, 10, count);
    assert(face_count(polygons, 10) == 4);
    lemma_face_ok(polygons, 5, count);
    assert(face_count(polygons, 5) == 5);
    lemma_face_ok(polygons, 0, count);
    assert(face_count(polygons, 0) == 6);
    lemma_face_at_next(polygons, 0, 0);
    assert(face_at(polygons, 0, 1) == 5);
    lemma_face_at_next(polygons, 0, 1);
    assert(face_at(polygons, 0, 2) == 10);
    lemma_face_at_next(polygons, 0, 2);
    assert(face_at(polygons, 0, 3) == 15);
    lemma_face_at_next(polygons, 0, 3);
    assert(face_at(polygons, 0, 4) == 20);
    lemma_face_at_next(polygons, 0, 4);
    assert(face_at(polygons, 0, 5) == 25);
}

/// Triangles 0 to 11 of the cube lean outward.
proof fn lemma_cube_triangles_0(t: int)
    requires
        0 <= t < 12,
    ensures
        triangle_lean(CUBE_VTX@, CUBE_INDICES@, t) > 0,
{
    let vtx = CUBE_VTX@;
    lemma_cube_sums();
    assert(lean_at(10000, -10000, 10000, 10000, -10000, -10000, 10000, 10000, -10000, 24, 0, 0, 0) > 0
        && lean_at(10000, -10000, 10000, 10000, 10000, -10000, 10000, 10000, 10000, 24, 0, 0, 0) > 0
        && lean_at(-10000, -10000, 10000, -10000, 10000, 10000, -10000, 10000, -10000, 24, 0, 0, 0) > 0
        && lean_at(-10000, -10000, 10000, -10000, 10000, -10000, -10000, -10000, -10000, 24, 0, 0, 0) > 0
        && lean_at(10000, 10000, -10000, -10000, 10000, -10000, -10000, 10000, 10000, 24, 0, 0, 0) > 0
        && lean_at(10000, 10000, -10000, -10000, 10000, 10000, 10000, 10000, 10000, 24, 0, 0, 0) > 0
        && lean_at(10000, -10000, -10000, 10000, -10000, 10000, -10000, -10000, 10000, 24, 0, 0, 0) > 0
        && lean_at(10000, -10000, -10000, -10000, -10000, 10000, -10000, -10000, -10000, 24, 0, 0, 0) > 0
        && lean_at(-10000, 10000, 10000, -10000, -10000, 10000, 10000, -10000, 10000, 24, 0, 0, 0) > 0
        && lean_at(-10000, 10000, 10000, 10000, -10000, 10000, 10000, 10000, 10000, 24, 0, 0, 0) > 0
        && lean_at(-10000, 10000, -10000, 10000, 10000, -10000, 10000, -10000, -10000, 24, 0, 0, 0) > 0
        && lean_at(-10000, 10000, -10000, 10000, -10000, -10000, -10000, -10000, -10000, 24, 0, 0, 0) > 0) by (nonlinear_arith);
    if t == 0 {
        lemma_lean_at(vtx, 0, 1, 2);
    } else if t == 1 {
        lemma_lean_at(vtx, 0, 2, 3);
    } else if t == 2 {
        lemma_lean_at(vtx, 4, 5, 6);
    } else if t == 3 {
        lemma_lean_at(vtx, 4, 6, 7);
    } else if t == 4 {
        lemma_lean_at(vtx, 8, 9, 10);
    } else if t == 5 {
        lemma_lean_at(vtx, 8, 10, 11);
    } else if t == 6 {
        lemma_lean_at(vtx, 12, 13, 14);
    } else if t == 7 {
        lemma_lean_at(vtx, 12, 14, 15);
    } else if t == 8 {
        lemma_lean_at(vtx, 16, 17, 18);
    } else if t == 9 {
        lemma_lean_at(vtx, 16, 18, 19);
    } else if t == 10 {
        lemma_lean_at(vtx, 20, 21, 22);
    } else if t == 11 {
        lemma_lean_at(vtx, 20, 22, 23);
    }
}

/// Planes 0 to 5 of the cube look outward.
proof fn lemma_cube_planes_0(f: int)
    requires
        0 <= f < 6,
    ensures
        plane_away(CUBE_VTX@, CUBE_POLYGONS@, CUBE_PLANES@, f) > 0,
{
    let vtx = CUBE_VTX@;
    lemma_cube_sums();
    lemma_cube_faces(24);
    assert(away_at(10000, -10000, 10000, 10000, 0, 0, 24, 0, 0, 0) > 0
        && away_at(-10000, -10000, 10000, -10000, 0, 0, 24, 0, 0, 0) > 0
        && away_at(10000, 10000, -10000, 0, 10000, 0, 24, 0, 0, 0) > 0
        && away_at(10000, -10000, -10000, 0, -10000, 0, 24, 0, 0, 0) > 0
        && away_at(-10000, 10000, 10000, 0, 0, 10000, 24, 0, 0, 0) > 0
        && away_at(-10000, 10000, -10000, 0, 0, -10000, 24, 0, 0, 0) > 0) by (nonlinear_arith);
    if f == 0 {
        lemma_away_at(vtx, 0, 10000, 0, 0);
    } else if f == 1 {
        lemma_away_at(vtx, 4, -10000, 0, 0);
    } else if f == 2 {
        lemma_away_at(vtx, 8, 0, 10000, 0);
    } else if f == 3 {
        lemma_away_at(vtx, 12, 0, -10000, 0);
    } else if f == 4 {
        lemma_away_at(vtx, 16, 0, 0, 10000);
    } else if f == 5 {
        lemma_away_at(vtx, 20, 0, 0, -10000);
    }
}

/// The table of the cube is the descriptor of a solid whose faces look
/// outward.
pub proof fn lemma_cube_table()
    ensures
        buffers_valid(CUBE_VTX@, CUBE_INDICES@, CUBE_PLANES@, CUBE_POLYGONS@),
{
    let vtx = CUBE_VTX@;
    let indices = CUBE_INDICES@;
    let planes = CUBE_PLANES@;
    let polygons = CUBE_POLYGONS@;
    lemma_cube_faces(24);
    assert(coord(vtx, 4, 0) != coord(vtx, 0, 0));
    assert(coord(vtx, 2, 1) != coord(vtx, 0, 1));
    assert(coord(vtx, 1, 2) != coord(vtx, 0, 2));
    assert forall|t: int| 0 <= t < 12 implies #[trigger] triangle_lean(vtx, indices, t) > 0 by {
        if t < 12 {
            lemma_cube_triangles_0(t);
        }
    }
    assert forall|f: int| 0 <= f < 6 implies #[trigger] plane_away(vtx, polygons, planes, f) > 0 by {
        if f < 6 {
            lemma_cube_planes_0(f);
        }
    }
}

/// Sums of the coordinates of the centred cube.
proof fn lemma_cube_center_sums()
    ensures
        axis_sum(CUBE_CENTER_VTX@, 30, 0) == 0,
        axis_sum(CUBE_CENTER_VTX@, 30, 1) == 0,
        axis_sum(CUBE_CENTER_VTX@, 30, 2) == 0,
{
    let vtx = CUBE_CENTER_VTX@;
    reveal_with_fuel(axis_sum, 5);
    assert(axis_sum(vtx, 4, 0) == 40000 && axis_sum(vtx, 4, 1) == 0 && axis_sum(vtx, 4, 2) == 0);
    assert(axis_sum(vtx, 8, 0) == 0 && axis_sum(vtx, 8, 1) == 0 && axis_sum(vtx, 8, 2) == 0);
    assert(axis_sum(vtx, 12, 0) == 0 && axis_sum(vtx, 12, 1) == 40000 && axis_sum(vtx, 12, 2) == 0);
    assert(axis_sum(vtx, 16, 0) == 0 && axis_sum(vtx, 16, 1) == 0 && axis_sum(vtx, 16, 2) == 0);
    assert(axis_sum(vtx, 20, 0) == 0 && axis_sum(vtx, 20, 1) == 0 && axis_sum(vtx, 20, 2) == 40000);
    assert(axis_sum(vtx, 24, 0) == 0 && axis_sum(vtx, 24, 1) == 0 && axis_sum(vtx, 24, 2) == 0);
    assert(axis_sum(vtx, 28, 0) == 0 && axis_sum(vtx, 28, 1) == 0 && axis_sum(vtx, 28, 2) == 0);
    assert(axis_sum(vtx, 30, 0) == 0 && axis_sum(vtx, 30, 1) == 0 && axis_sum(vtx, 30, 2) == 0);
}

/// Triangles 0 to 15 of the centred cube lean outward.
proof fn lemma_cube_center_triangles_0(t: int)
    requires
        0 <= t < 16,
    ensures
        triangle_lean(CUBE_CENTER_VTX@, CUBE_CENTER_INDICES@, t) > 0,
{
    let vtx = CUBE_CENTER_VTX@;
    lemma_cube_center_sums();
    assert(lean_at(10000, 0, 0, 10000, -10000, 10000, 10000, -10000, -10000, 30, 0, 0, 0) > 0
        && lean_at(10000, 0, 0, 10000, -10000, -10000, 10000, 10000, -10000, 30, 0, 0, 0) > 0
        && lean_at(10000, 0, 0, 10000, 10000, -10000, 10000, 10000, 10000, 30, 0, 0, 0) > 0
        && lean_at(10000, 0, 0, 10000, 10000, 10000, 10000, -10000, 10000, 30, 0, 0, 0) > 0
        && lean_at(-10000, 0, 0, -10000, -10000, 10000, -10000, 10000, 10000, 30, 0, 0, 0) > 0
        && lean_at(-10000, 0, 0, -10000, 10000, 10000, -10000, 10000, -10000, 30, 0, 0, 0) > 0
        && lean_at(-10000, 0, 0, -10000, 10000, -10000, -10000, -10000, -10000, 30, 0, 0, 0) > 0
        && lean_at(-10000, 0, 0, -10000, -10000, -10000, -10000, -10000, 10000, 30, 0, 0, 0) > 0
        && lean_at(0, 10000, 0, 10000, 10000, -10000, -10000, 10000, -10000, 30, 0, 0, 0) > 0
        && lean_at(0, 10000, 0, -10000, 10000, -10000, -10000, 10000, 10000, 30, 0, 0, 0) > 0
        && lean_at(0, 10000, 0, -10000, 10000, 10000, 10000, 10000, 10000, 30, 0, 0, 0) > 0
        && lean_at(0, 10000, 0, 10000, 10000, 10000, 10000, 10000, -10000, 30, 0, 0, 0) > 0
        && lean_at(0, -10000, 0, 10000, -10000, -10000, 10000, -10000, 10000, 30, 0, 0, 0) > 0
        && lean_at(0, -10000, 0, 10000, -10000, 10000, -10000, -10000, 10000, 30, 0, 0, 0) > 0
        && lean_at(0, -10000, 0, -10000, -10000, 10000, -10000, -10000, -10000, 30, 0, 0, 0) > 0
        && lean_at(0, -10000, 0, -10000, -10000, -10000, 10000, -10000, -10000, 30, 0, 0, 0) > 0) by (nonlinear_arith);
    if t == 0 {
        lemma_lean_at(vtx, 24, 0, 1);
    } else if t == 1 {
        lemma_lean_at(vtx, 24, 1, 2);
    } else if t == 2 {
        lemma_lean_at(vtx, 24, 2, 3);
    } else if t == 3 {
        lemma_lean_at(vtx, 24, 3, 0);
    } else if t == 4 {
        lemma_lean_at(vtx, 25, 4, 5);
    } else if t == 5 {
        lemma_lean_at(vtx, 25, 5, 6);
    } else if t == 6 {
        lemma_lean_at(vtx, 25, 6, 7);
    } else if t == 7 {
        lemma_lean_at(vtx, 25, 7, 4);
    } else if t == 8 {
        lemma_lean_at(vtx, 26, 8, 9);
    } else if t == 9 {
        lemma_lean_at(vtx, 26, 9, 10);
    } else if t == 10 {
        lemma_lean_at(vtx, 26, 10, 11);
    } else if t == 11 {
        lemma_lean_at(vtx, 26, 11, 8);
    } else if t == 12 {
        lemma_lean_at(vtx, 27, 12, 13);
    } else if t == 13 {
        lemma_lean_at(vtx, 27, 13, 14);
    } else if t == 14 {
        lemma_lean_at(vtx, 27, 14, 15);
    } else if t == 15 {
        lemma_lean_at(vtx, 27, 15, 12);
    }
}

/// Triangles 16 to 23 of the centred cube lean outward.
proof fn lemma_cube_center_triangles_16(t: int)
    requires
        16 <= t < 24,
    ensures
        triangle_lean(CUBE_CENTER_VTX@, CUBE_CENTER_INDICES@, t) > 0,
{
    let vtx = CUBE_CENTER_VTX@;
    lemma_cube_center_sums();
    assert(lean_at(0, 0, 10000, -10000, 10000, 10000, -10000, -10000, 10000, 30, 0, 0, 0) > 0
        && lean_at(0, 0, 10000, -10000, -10000, 10000, 10000, -10000, 10000, 30, 0, 0, 0) > 0
        && lean_at(0, 0, 10000, 10000, -10000, 10000, 10000, 10000, 10000, 30, 0, 0, 0) > 0
        && lean_at(0, 0, 10000, 10000, 10000, 10000, -10000, 10000, 10000, 30, 0, 0, 0) > 0
        && lean_at(0, 0, -10000, -10000, 10000, -10000, 10000, 10000, -10000, 30, 0, 0, 0) > 0
        && lean_at(0, 0, -10000, 10000, 10000, -10000, 10000, -10000, -10000, 30, 0, 0, 0) > 0
        && lean_at(0, 0, -10000, 10000, -10000, -10000, -10000, -10000, -10000, 30, 0, 0, 0) > 0
        && lean_at(0, 0, -10000, -10000, -10000, -10000, -10000, 10000, -10000, 30, 0, 0, 0) > 0) by (nonlinear_arith);
    if t == 16 {
        lemma_lean_at(vtx, 28, 16, 17);
    } else if t == 17 {
        lemma_lean_at(vtx, 28, 17, 18);
    } else if t == 18 {
        lemma_lean_at(vtx, 28, 18, 19);
    } else if t == 19 {
        lemma_lean_at(vtx, 28, 19, 16);
    } else if t == 20 {
        lemma_lean_at(vtx, 29, 20, 21);
    } else if t == 21 {
        lemma_lean_at(vtx, 29, 21, 22);
    } else if t == 22 {
        lemma_lean_at(vtx, 29, 22, 23);
    } else if t == 23 {
        lemma_lean_at(vtx, 29, 23, 20);
    }
}

/// Planes 0 to 5 of the centred cube look outward.
proof fn lemma_cube_center_planes_0(f: int)
    requires
        0 <= f < 6,
    ensures
        plane_away(CUBE_CENTER_VTX@, CUBE_POLYGONS@, CUBE_PLANES@, f) > 0,
{
    let vtx = CUBE_CENTER_VTX@;
    lemma_cube_center_sums();
    lemma_cube_faces(30);
    assert(away_at(10000, -10000, 10000, 10000, 0, 0, 30, 0, 0, 0) > 0
        && away_at(-10000, -10000, 10000, -10000, 0, 0, 30, 0, 0, 0) > 0
        && away_at(10000, 10000, -10000, 0, 10000, 0, 30, 0, 0, 0) > 0
        && away_at(10000, -10000, -10000, 0, -10000, 0, 30, 0, 0, 0) > 0
        && away_at(-10000, 10000, 10000, 0, 0, 10000, 30, 0, 0, 0) > 0
        && away_at(-10000, 10000, -10000, 0, 0, -10000, 30, 0, 0, 0) > 0) by (nonlinear_arith);
    if f == 0 {
        lemma_away_at(vtx, 0, 10000, 0, 0);
    } else if f == 1 {
        lemma_away_at(vtx, 4, -10000, 0, 0);
    } else if f == 2 {
        lemma_away_at(vtx, 8, 0, 10000, 0);
    } else if f == 3 {
        lemma_away_at(vtx, 12, 0, -10000, 0);
    } else if f == 4 {
        lemma_away_at(vtx, 16, 0, 0, 10000);
    } else if f == 5 {
        lemma_away_at(vtx, 20, 0, 0, -10000);
    }
}

/// The table of the centred cube is the descriptor of a solid whose faces look
/// outward.
pub proof fn lemma_cube_center_table()
    ensures
        buffers_valid(CUBE_CENTER_VTX@, CUBE_CENTER_INDICES@, CUBE_PLANES@, CUBE_POLYGONS@),
{
    let vtx = CUBE_CENTER_VTX@;
    let indices = CUBE_CENTER_INDICES@;
    let planes = CUBE_PLANES@;
    let polygons = CUBE_POLYGONS@;
    lemma_cube_faces(30);
    assert(coord(vtx, 4, 0) != coord(vtx, 0, 0));
    assert(coord(vtx, 2, 1) != coord(vtx, 0, 1));
    assert(coord(vtx, 1, 2) != coord(vtx, 0, 2));
    assert forall|t: int| 0 <= t < 24 implies #[trigger] triangle_lean(vtx, indices, t) > 0 by {
        if t < 16 {
            lemma_cube_center_triangles_0(t);
        } else if t < 24 {
            lemma_cube_center_triangles_16(t);
        }
    }
    assert forall|f: int| 0 <= f < 6 implies #[trigger] plane_away(vtx, polygons, planes, f) > 0 by {
        if f < 6 {
            lemma_cube_center_planes_0(f);
        }
    }
}

/// Sums of the coordinates of the octahedron.
proof fn lemma_octa_sums()
    ensures
        axis_sum(OCTA_VTX@, 6, 0) == 0,
        axis_sum(OCTA_VTX@, 6, 1) == 0,
        axis_sum(OCTA_VTX@, 6, 2) == 0,
{
    let vtx = OCTA_VTX@;
    reveal_with_fuel(axis_sum, 5);
    assert(axis_sum(vtx, 4, 0) == 0 && axis_sum(vtx, 4, 1) == 0 && axis_sum(vtx, 4, 2) == 0);
    assert(axis_sum(vtx, 6, 0) == 0 && axis_sum(vtx, 6, 1) == 0 && axis_sum(vtx, 6, 2) == 0);
}

/// The faces of the octahedron, and where each starts.
proof fn lemma_octa_faces(count: int)
    requires
        count >= 6,
    ensures
        faces_ok(OCTA_POLYGONS@, 0, count),
        face_count(OCTA_POLYGONS@, 0) == 8,
        face_at(OCTA_POLYGONS@, 0, 0) == 0,
        face_at(OCTA_POLYGONS@, 0, 1) == 4,
        face_at(OCTA_POLYGONS@, 0, 2) == 8,
        face_at(OCTA_POLYGONS@, 0, 3) == 12,
        face_at(OCTA_POLYGONS@, 0, 4) == 16,
        face_at(OCTA_POLYGONS@, 0, 5) == 20,
        face_at(OCTA_POLYGONS@, 0, 6) == 24,
        face_at(OCTA_POLYGONS@, 0, 7) == 28,
{
    let polygons = OCTA_POLYGONS@;
    assert(face_count(polygons, 32) == 0);
    lemma_face_ok(polygons, 28, count);
    assert(face_count(polygons, 28) == 1);
    lemma_face_ok(polygons, 24, count);
    assert(face_count(polygons, 24) == 2);
    lemma_face_ok(polygons, 20, count);
    assert(face_count(polygons, 20) == 3);
    lemma_face_ok(polygons, 16, count);
    assert(face_count(polygons, 16) == 4);
    lemma_face_ok(polygons, 12, count);
    assert(face_count(polygons, 12) == 5);
    lemma_face_ok(polygons, 8, count);
    assert(face_count(polygons, 8) == 6);
    lemma_face_ok(polygons, 4, count);
    assert(face_count(polygons, 4) == 7);
    lemma_face_ok(polygons, 0, count);
    assert(face_count(polygons, 0) == 8);
    lemma_face_at_next(polygons, 0, 0);
    assert(face_at(polygons, 0, 1) == 4);
    lemma_face_at_next(polygons, 0, 1);
    assert(face_at(polygons, 0, 2) == 8);
    lemma_face_at_next(polygons, 0, 2);
    assert(face_at(polygons, 0, 3) == 12);
    lemma_face_at_next(polygons, 0, 3);
    assert(face_at(polygons, 0, 4) == 16);
    lemma_face_at_next(polygons, 0, 4);
    assert(face_at(polygons, 0, 5) == 20);
    lemma_face_at_next(polygons, 0, 5);
    assert(face_at(polygons, 0, 6) == 24);
    lemma_face_at_next(polygons, 0, 6);
    assert(face_at(polygons, 0, 7) == 28);
}

/// Triangles 0 to 7 of the octahedron lean outward.
proof fn lemma_octa_triangles_0(t: int)
    requires
        0 <= t < 8,
    ensures
        triangle_lean(OCTA_VTX@, OCTA_INDICES@, t) > 0,
{
    let vtx = OCTA_VTX@;
    lemma_octa_sums();
    assert(lean_at(10000, 0, 0, 0, 10000, 0, 0, 0, 10000, 6, 0, 0, 0) > 0
        && lean_at(10000, 0, 0, 0, 0, 10000, 0, -10000, 0, 6, 0, 0, 0) > 0
        && lean_at(10000, 0, 0, 0, -10000, 0, 0, 0, -10000, 6, 0, 0, 0) > 0
        && lean_at(10000, 0, 0, 0, 0, -10000, 0, 10000, 0, 6, 0, 0, 0) > 0
        && lean_at(-10000, 0, 0, 0, 0, -10000, 0, -10000, 0, 6, 0, 0, 0) > 0
        && lean_at(-10000, 0, 0, 0, 10000, 0, 0, 0, -10000, 6, 0, 0, 0) > 0
        && lean_at(-10000, 0, 0, 0, 0, 10000, 0, 10000, 0, 6, 0, 0, 0) > 0
        && lean_at(-10000, 0, 0, 0, -10000, 0, 0, 0, 10000, 6, 0, 0, 0) > 0) by (nonlinear_arith);
    if t == 0 {
        lemma_lean_at(vtx, 0, 2, 4);
    } else if t == 1 {
        lemma_lean_at(vtx, 0, 4, 3);
    } else if t == 2 {
        lemma_lean_at(vtx, 0, 3, 5);
    } else if t == 3 {
        lemma_lean_at(vtx, 0, 5, 2);
    } else if t == 4 {
        lemma_lean_at(vtx, 1, 5, 3);
    } else if t == 5 {
        lemma_lean_at(vtx, 1, 2, 5);
    } else if t == 6 {
        lemma_lean_at(vtx, 1, 4, 2);
    } else if t == 7 {
        lemma_lean_at(vtx, 1, 3, 4);
    }
}

/// Planes 0 to 7 of the octahedron look outward.
proof fn lemma_octa_planes_0(f: int)
    requires
        0 <= f < 8,
    ensures
        plane_away(OCTA_VTX@, OCTA_POLYGONS@, OCTA_PLANES@, f) > 0,
{
    let vtx = OCTA_VTX@;
    lemma_octa_sums();
    lemma_octa_faces(6);
    assert(away_at(10000, 0, 0, 5774, 5774, 5774, 6, 0, 0, 0) > 0
        && away_at(10000, 0, 0, 5774, -5774, 5774, 6, 0, 0, 0) > 0
        && away_at(10000, 0, 0, 5774, -5774, -5774, 6, 0, 0, 0) > 0
        && away_at(10000, 0, 0, 5774, 5774, -5774, 6, 0, 0, 0) > 0
        && away_at(-10000, 0, 0, -5774, -5774, -5774, 6, 0, 0, 0) > 0
        && away_at(-10000, 0, 0, -5774, 5774, -5774, 6, 0, 0, 0) > 0
        && away_at(-10000, 0, 0, -5774, 5774, 5774, 6, 0, 0, 0) > 0
        && away_at(-10000, 0, 0, -5774, -5774, 5774, 6, 0, 0, 0) > 0) by (nonlinear_arith);
    if f == 0 {
        lemma_away_at(vtx, 0, 5774, 5774, 5774);
    } else if f == 1 {
        lemma_away_at(vtx, 0, 5774, -5774, 5774);
    } else if f == 2 {
        lemma_away_at(vtx, 0, 5774, -5774, -5774);
    } else if f == 3 {
        lemma_away_at(vtx, 0, 5774, 5774, -5774);
    } else if f == 4 {
        lemma_away_at(vtx, 1, -5774, -5774, -5774);
    } else if f == 5 {
        lemma_away_at(vtx, 1, -5774, 5774, -5774);
    } else if f == 6 {
        lemma_away_at(vtx, 1, -5774, 5774, 5774);
    } else if f == 7 {
        lemma_away_at(vtx, 1, -5774, -5774, 5774);
    }
}

/// The table of the octahedron is the descriptor of a solid whose faces look
/// outward.
pub proof fn lemma_octa_table()
    ensures
        buffers_valid(OCTA_VTX@, OCTA_INDICES@, OCTA_PLANES@, OCTA_POLYGONS@),
{
    let vtx = OCTA_VTX@;
    let indices = OCTA_INDICES@;
    let planes = OCTA_PLANES@;
    let polygons = OCTA_POLYGONS@;
    lemma_octa_faces(6);
    assert(coord(vtx, 1, 0) != coord(vtx, 0, 0));
    assert(coord(vtx, 2, 1) != coord(vtx, 0, 1));
    assert(coord(vtx, 4, 2) != coord(vtx, 0, 2));
    assert forall|t: int| 0 <= t < 8 implies #[trigger] triangle_lean(vtx, indices, t) > 0 by {
        if t < 8 {
            lemma_octa_triangles_0(t);
        }
    }
    assert forall|f: int| 0 <= f < 8 implies #[trigger] plane_away(vtx, polygons, planes, f) > 0 by {
        if f < 8 {
            lemma_octa_planes_0(f);
        }
    }
}

/// Sums of the coordinates of the icosahedron.
proof fn lemma_icosa_sums()
    ensures
        axis_sum(ICOSA_VTX@, 12, 0) == 0,
        axis_sum(ICOSA_VTX@, 12, 1) == 0,
        axis_sum(ICOSA_VTX@, 12, 2) == 0,
{
    let vtx = ICOSA_VTX@;
    reveal_with_fuel(axis_sum, 5);
    assert(axis_sum(vtx, 4, 0) == 0 && axis_sum(vtx, 4, 1) == 0 && axis_sum(vtx, 4, 2) == 0);
    assert(axis_sum(vtx, 8, 0) == 0 && axis_sum(vtx, 8, 1) == 0 && axis_sum(vtx, 8, 2) == 0);
    assert(axis_sum(vtx, 12, 0) == 0 && axis_sum(vtx, 12, 1) == 0 && axis_sum(vtx, 12, 2) == 0);
}

/// The faces of the icosahedron, and where each starts.
proof fn lemma_icosa_faces(count: int)
    requires
        count >= 12,
    ensures
        faces_ok(ICOSA_POLYGONS@, 0, count),
        face_count(ICOSA_POLYGONS@, 0) == 20,
        face_at(ICOSA_POLYGONS@, 0, 0) == 0,
        face_at(ICOSA_POLYGONS@, 0, 1) == 4,
        face_at(ICOSA_POLYGONS@, 0, 2) == 8,
        face_at(ICOSA_POLYGONS@, 0, 3) == 12,
        face_at(ICOSA_POLYGONS@, 0, 4) == 16,
        face_at(ICOSA_POLYGONS@, 0, 5) == 20,
        face_at(ICOSA_POLYGONS@, 0, 6) == 24,
        face_at(ICOSA_POLYGONS@, 0, 7) == 28,
        face_at(ICOSA_POLYGONS@, 0, 8) == 32,
        face_at(ICOSA_POLYGONS@, 0, 9) == 36,
        face_at(ICOSA_POLYGONS@, 0, 10) == 40,
        face_at(ICOSA_POLYGONS@, 0, 11) == 44,
        face_at(ICOSA_POLYGONS@, 0, 12) == 48,
        face_at(ICOSA_POLYGONS@, 0, 13) == 52,
        face_at(ICOSA_POLYGONS@, 0, 14) == 56,
        face_at(ICOSA_POLYGONS@, 0, 15) == 60,
        face_at(ICOSA_POLYGONS@, 0, 16) == 64,
        face_at(ICOSA_POLYGONS@, 0, 17) == 68,
        face_at(ICOSA_POLYGONS@, 0, 18) == 72,
        face_at(ICOSA_POLYGONS@, 0, 19) == 76,
{
    let polygons = ICOSA_POLYGONS@;
    assert(face_count(polygons, 80) == 0);
    lemma_face_ok(polygons, 76, count);
    assert(face_count(polygons, 76) == 1);
    lemma_face_ok(polygons, 72, count);
    assert(face_count(polygons, 72) == 2);
    lemma_face_ok(polygons, 68, count);
    assert(face_count(polygons, 68) == 3);
    lemma_face_ok(polygons, 64, count);
    assert(face_count(polygons, 64) == 4);
    lemma_face_ok(polygons, 60, count);
    assert(face_count(polygons, 60) == 5);
    lemma_face_ok(polygons, 56, count);
    assert(face_count(polygons, 56) == 6);
    lemma_face_ok(polygons, 52, count);
    assert(face_count(polygons, 52) == 7);
    lemma_face_ok(polygons, 48, count);
    assert(face_count(polygons, 48) == 8);
    lemma_face_ok(polygons, 44, count);
    assert(face_count(polygons, 44) == 9);
    lemma_face_ok(polygons, 40, count);
    assert(face_count(polygons, 40) == 10);
    lemma_face_ok(polygons, 36, count);
    assert(face_count(polygons, 36) == 11);
    lemma_face_ok(polygons, 32, count);
    assert(face_count(polygons, 32) == 12);
    lemma_face_ok(polygons, 28, count);
    assert(face_count(polygons, 28) == 13);
    lemma_face_ok(polygons, 24, count);
    assert(face_count(polygons, 24) == 14);
    lemma_face_ok(polygons, 20, count);
    assert(face_count(polygons, 20) == 15);
    lemma_face_ok(polygons, 16, count);
    assert(face_count(polygons, 16) == 16);
    lemma_face_ok(polygons, 12, count);
    assert(face_count(polygons, 12) == 17);
    lemma_face_ok(polygons, 8, count);
    assert(face_count(polygons, 8) == 18);
    lemma_face_ok(polygons, 4, count);
    assert(face_count(polygons, 4) == 19);
    lemma_face_ok(polygons, 0, count);
    assert(face_count(polygons, 0) == 20);
    lemma_face_at_next(polygons, 0, 0);
    assert(face_at(polygons, 0, 1) == 4);
    lemma_face_at_next(polygons, 0, 1);
    assert(face_at(polygons, 0, 2) == 8);
    lemma_face_at_next(polygons, 0, 2);
    assert(face_at(polygons, 0, 3) == 12);
    lemma_face_at_next(polygons, 0, 3);
    assert(face_at(polygons, 0, 4) == 16);
    lemma_face_at_next(polygons, 0, 4);
    assert(face_at(polygons, 0, 5) == 20);
    lemma_face_at_next(polygons, 0, 5);
    assert(face_at(polygons, 0, 6) == 24);
    lemma_face_at_next(polygons, 0, 6);
    assert(face_at(polygons, 0, 7) == 28);
    lemma_face_at_next(polygons, 0, 7);
    assert(face_at(polygons, 0, 8) == 32);
    lemma_face_at_next(polygons, 0, 8);
    assert(face_at(polygons, 0, 9) == 36);
    lemma_face_at_next(polygons, 0, 9);
    assert(face_at(polygons, 0, 10) == 40);
    lemma_face_at_next(polygons, 0, 10);
    assert(face_at(polygons, 0, 11) == 44);
    lemma_face_at_next(polygons, 0, 11);
    assert(face_at(polygons, 0, 12) == 48);
    lemma_face_at_next(polygons, 0, 12);
    assert(face_at(polygons, 0, 13) == 52);
    lemma_face_at_next(polygons, 0, 13);
    assert(face_at(polygons, 0, 14) == 56);
    lemma_face_at_next(polygons, 0, 14);
    assert(face_at(polygons, 0, 15) == 60);
    lemma_face_at_next(polygons, 0, 15);
    assert(face_at(polygons, 0, 16) == 64);
    lemma_face_at_next(polygons, 0, 16);
    assert(face_at(polygons, 0, 17) == 68);
    lemma_face_at_next(polygons, 0, 17);
    assert(face_at(polygons, 0, 18) == 72);
    lemma_face_at_next(polygons, 0, 18);
    assert(face_at(polygons, 0, 19) == 76);
}

/// Triangles 0 to 15 of the icosahedron lean outward.
proof fn lemma_icosa_triangles_0(t: int)
    requires
        0 <= t < 16,
    ensures
        triangle_lean(ICOSA_VTX@, ICOSA_INDICES@, t) > 0,
{
    let vtx = ICOSA_VTX@;
    lemma_icosa_sums();
    assert(lean_at(0, -10000, -16180, -10000, -16180, 0, -16180, 0, -10000, 12, 0, 0, 0) > 0
        && lean_at(0, -10000, -16180, 10000, -16180, 0, -10000, -16180, 0, 12, 0, 0, 0) > 0
        && lean_at(0, -10000, -16180, 16180, 0, -10000, 10000, -16180, 0, 12, 0, 0, 0) > 0
        && lean_at(0, -10000, -16180, 0, 10000, -16180, 16180, 0, -10000, 12, 0, 0, 0) > 0
        && lean_at(-16180, 0, -10000, 0, 10000, -16180, 0, -10000, -16180, 12, 0, 0, 0) > 0
        && lean_at(-16180, 0, -10000, -10000, 16180, 0, 0, 10000, -16180, 12, 0, 0, 0) > 0
        && lean_at(-16180, 0, -10000, -16180, 0, 10000, -10000, 16180, 0, 12, 0, 0, 0) > 0
        && lean_at(-10000, -16180, 0, -16180, 0, 10000, -16180, 0, -10000, 12, 0, 0, 0) > 0
        && lean_at(-10000, -16180, 0, 0, -10000, 16180, -16180, 0, 10000, 12, 0, 0, 0) > 0
        && lean_at(-10000, -16180, 0, 10000, -16180, 0, 0, -10000, 16180, 12, 0, 0, 0) > 0
        && lean_at(16180, 0, 10000, 0, -10000, 16180, 10000, -16180, 0, 12, 0, 0, 0) > 0
        && lean_at(16180, 0, 10000, 10000, -16180, 0, 16180, 0, -10000, 12, 0, 0, 0) > 0
        && lean_at(16180, 0, 10000, 16180, 0, -10000, 10000, 16180, 0, 12, 0, 0, 0) > 0
        && lean_at(10000, 16180, 0, 16180, 0, -10000, 0, 10000, -16180, 12, 0, 0, 0) > 0
        && lean_at(10000, 16180, 0, 0, 10000, -16180, -10000, 16180, 0, 12, 0, 0, 0) > 0
        && lean_at(10000, 16180, 0, -10000, 16180, 0, 0, 10000, 16180, 12, 0, 0, 0) > 0) by (nonlinear_arith);
    if t == 0 {
        lemma_lean_at(vtx, 0, 8, 4);
    } else if t == 1 {
        lemma_lean_at(vtx, 0, 9, 8);
    } else if t == 2 {
        lemma_lean_at(vtx, 0, 7, 9);
    } else if t == 3 {
        lemma_lean_at(vtx, 0, 1, 7);
    } else if t == 4 {
        lemma_lean_at(vtx, 4, 1, 0);
    } else if t == 5 {
        lemma_lean_at(vtx, 4, 11, 1);
    } else if t == 6 {
        lemma_lean_at(vtx, 4, 5, 11);
    } else if t == 7 {
        lemma_lean_at(vtx, 8, 5, 4);
    } else if t == 8 {
        lemma_lean_at(vtx, 8, 3, 5);
    } else if t == 9 {
        lemma_lean_at(vtx, 8, 9, 3);
    } else if t == 10 {
        lemma_lean_at(vtx, 6, 3, 9);
    } else if t == 11 {
        lemma_lean_at(vtx, 6, 9, 7);
    } else if t == 12 {
        lemma_lean_at(vtx, 6, 7, 10);
    } else if t == 13 {
        lemma_lean_at(vtx, 10, 7, 1);
    } else if t == 14 {
        lemma_lean_at(vtx, 10, 1, 11);
    } else if t == 15 {
        lemma_lean_at(vtx, 10, 11, 2);
    }
}

/// Triangles 16 to 19 of the icosahedron lean outward.
proof fn lemma_icosa_triangles_16(t: int)
    requires
        16 <= t < 20,
    ensures
        triangle_lean(ICOSA_VTX@, ICOSA_INDICES@, t) > 0,
{
    let vtx = ICOSA_VTX@;
    lemma_icosa_sums();
    assert(lean_at(0, 10000, 16180, -10000, 16180, 0, -16180, 0, 10000, 12, 0, 0, 0) > 0
        && lean_at(0, 10000, 16180, -16180, 0, 10000, 0, -10000, 16180, 12, 0, 0, 0) > 0
        && lean_at(0, 10000, 16180, 0, -10000, 16180, 16180, 0, 10000, 12, 0, 0, 0) > 0
        && lean_at(0, 10000, 16180, 16180, 0, 10000, 10000, 16180, 0, 12, 0, 0, 0) > 0) by (nonlinear_arith);
    if t == 16 {
        lemma_lean_at(vtx, 2, 11, 5);
    } else if t == 17 {
        lemma_lean_at(vtx, 2, 5, 3);
    } else if t == 18 {
        lemma_lean_at(vtx, 2, 3, 6);
    } else if t == 19 {
        lemma_lean_at(vtx, 2, 6, 10);
    }
}

/// Planes 0 to 15 of the icosahedron look outward.
proof fn lemma_icosa_planes_0(f: int)
    requires
        0 <= f < 16,
    ensures
        plane_away(ICOSA_VTX@, ICOSA_POLYGONS@, ICOSA_PLANES@, f) > 0,
{
    let vtx = ICOSA_VTX@;
    lemma_icosa_sums();
    lemma_icosa_faces(12);
    assert(away_at(0, -10000, -16180, -5774, -5774, -5774, 12, 0, 0, 0) > 0
        && away_at(0, -10000, -16180, 0, -9342, -3568, 12, 0, 0, 0) > 0
        && away_at(0, -10000, -16180, 5774, -5774, -5774, 12, 0, 0, 0) > 0
        && away_at(0, -10000, -16180, 3568, 0, -9342, 12, 0, 0, 0) > 0
        && away_at(-16180, 0, -10000, -3568, 0, -9342, 12, 0, 0, 0) > 0
        && away_at(-16180, 0, -10000, -5774, 5774, -5774, 12, 0, 0, 0) > 0
        && away_at(-16180, 0, -10000, -9342, 3568, 0, 12, 0, 0, 0) > 0
        && away_at(-10000, -16180, 0, -9342, -3568, 0, 12, 0, 0, 0) > 0
        && away_at(-10000, -16180, 0, -5774, -5774, 5774, 12, 0, 0, 0) > 0
        && away_at(-10000, -16180, 0, 0, -9342, 3568, 12, 0, 0, 0) > 0
        && away_at(16180, 0, 10000, 5774, -5774, 5774, 12, 0, 0, 0) > 0
        && away_at(16180, 0, 10000, 9342, -3568, 0, 12, 0, 0, 0) > 0
        && away_at(16180, 0, 10000, 9342, 3568, 0, 12, 0, 0, 0) > 0
        && away_at(10000, 16180, 0, 5774, 5774, -5774, 12, 0, 0, 0) > 0
        && away_at(10000, 16180, 0, 0, 9342, -3568, 12, 0, 0, 0) > 0
        && away_at(10000, 16180, 0, 0, 9342, 3568, 12, 0, 0, 0) > 0) by (nonlinear_arith);
    if f == 0 {
        lemma_away_at(vtx, 0, -5774, -5774, -5774);
    } else if f == 1 {
        lemma_away_at(vtx, 0, 0, -9342, -3568);
    } else if f == 2 {
        lemma_away_at(vtx, 0, 5774, -5774, -5774);
    } else if f == 3 {
        lemma_away_at(vtx, 0, 3568, 0, -9342);
    } else if f == 4 {
        lemma_away_at(vtx, 4, -3568, 0, -9342);
    } else if f == 5 {
        lemma_away_at(vtx, 4, -5774, 5774, -5774);
    } else if f == 6 {
        lemma_away_at(vtx, 4, -9342, 3568, 0);
    } else if f == 7 {
        lemma_away_at(vtx, 8, -9342, -3568, 0);
    } else if f == 8 {
        lemma_away_at(vtx, 8, -5774, -5774, 5774);
    } else if f == 9 {
        lemma_away_at(vtx, 8, 0, -9342, 3568);
    } else if f == 10 {
        lemma_away_at(vtx, 6, 5774, -5774, 5774);
    } else if f == 11 {
        lemma_away_at(vtx, 6, 9342, -3568, 0);
    } else if f == 12 {
        lemma_away_at(vtx, 6, 9342, 3568, 0);
    } else if f == 13 {
        lemma_away_at(vtx, 10, 5774, 5774, -5774);
    } else if f == 14 {
        lemma_away_at(vtx, 10, 0, 9342, -3568);
    } else if f == 15 {
        lemma_away_at(vtx, 10, 0, 9342, 3568);
    }
}

/// Planes 16 to 19 of the icosahedron look outward.
proof fn lemma_icosa_planes_16(f: int)
    requires
        16 <= f < 20,
    ensures
        plane_away(ICOSA_VTX@, ICOSA_POLYGONS@, ICOSA_PLANES@, f) > 0,
{
    let vtx = ICOSA_VTX@;
    lemma_icosa_sums();
    lemma_icosa_faces(12);
    assert(away_at(0, 10000, 16180, -5774, 5774, 5774, 12, 0, 0, 0) > 0
        && away_at(0, 10000, 16180, -3568, 0, 9342, 12, 0, 0, 0) > 0
        && away_at(0, 10000, 16180, 3568, 0, 9342, 12, 0, 0, 0) > 0
        && away_at(0, 10000, 16180, 5774, 5774, 5774, 12, 0, 0, 0) > 0) by (nonlinear_arith);
    if f == 16 {
        lemma_away_at(vtx, 2, -5774, 5774, 5774);
    } else if f == 17 {
        lemma_away_at(vtx, 2, -3568, 0, 9342);
    } else if f == 18 {
        lemma_away_at(vtx, 2, 3568, 0, 9342);
    } else if f == 19 {
        lemma_away_at(vtx, 2, 5774, 5774, 5774);
    }
}

/// The table of the icosahedron is the descriptor of a solid whose faces look
/// outward.
pub proof fn lemma_icosa_table()
    ensures
        buffers_valid(ICOSA_VTX@, ICOSA_INDICES@, ICOSA_PLANES@, ICOSA_POLYGONS@),
{
    let vtx = ICOSA_VTX@;
    let indices = ICOSA_INDICES@;
    let planes = ICOSA_PLANES@;
    let polygons = ICOSA_POLYGONS@;
    lemma_icosa_faces(12);
    assert(coord(vtx, 4, 0) != coord(vtx, 0, 0));
    assert(coord(vtx, 1, 1) != coord(vtx, 0, 1));
    assert(coord(vtx, 2, 2) != coord(vtx, 0, 2));
    assert forall|t: int| 0 <= t < 20 implies #[trigger] triangle_lean(vtx, indices, t) > 0 by {
        if t < 16 {
            lemma_icosa_triangles_0(t);
        } else if t < 20 {
            lemma_icosa_triangles_16(t);
        }
    }
    assert forall|f: int| 0 <= f < 20 implies #[trigger] plane_away(vtx, polygons, planes, f) > 0 by {
        if f < 16 {
            lemma_icosa_planes_0(f);
        } else if f < 20 {
            lemma_icosa_planes_16(f);
        }
    }
}

} // verus!
