//! The dodecahedron, plain and centred, as tables in ten-thousandths: each
//! vertex the centre of a face of the icosahedron of edge two. The plain
//! one fans each pentagon from one of its corners; the centred one adds the
//! centre of each face as a vertex and fans the face from there. Both keep
//! the same pentagons as the faces of the hull.

use vstd::prelude::*;
use crate::geometry::{
    axis_sum, buffers_valid, coord, face_at, face_count, faces_ok, lean, lemma_face_at_next, lemma_face_ok,
    plane_away, triangle_lean,
};
use crate::geometry::{GeometryError, Polyhedron};
use crate::solids::{away_at, fill, lean_at, lemma_away_at, lemma_lean_at, planes_scaled, scaled, MAX_SCALE};

verus! {

/// Vertices of the dodecahedron.
pub const DODECA_VTX: [i32; 60] = [
    -8727, -8727, -8727, 0, -14120, -5393, 8727, -8727, -8727, 5393, 0, -14120,
    -5393, 0, -14120, -8727, 8727, -8727, -14120, 5393, 0, -14120, -5393, 0,
    -8727, -8727, 8727, 0, -14120, 5393, 8727, -8727, 8727, 14120, -5393, 0,
    14120, 5393, 0, 8727, 8727, -8727, 0, 14120, -5393, 0, 14120, 5393,
    -8727, 8727, 8727, -5393, 0, 14120, 5393, 0, 14120, 8727, 8727, 8727,
];

/// Triangles of the dodecahedron: each face fanned from its first corner.
pub const DODECA_INDICES: [u32; 108] = [
    0, 4, 3, 0, 3, 2, 0, 2, 1, 4, 0, 7,
    4, 7, 6, 4, 6, 5, 0, 1, 9, 0, 9, 8,
    0, 8, 7, 1, 2, 11, 1, 11, 10, 1, 10, 9,
    2, 3, 13, 2, 13, 12, 2, 12, 11, 3, 4, 5,
    3, 5, 14, 3, 14, 13, 15, 14, 5, 15, 5, 6,
    15, 6, 16, 16, 6, 7, 16, 7, 8, 16, 8, 17,
    17, 8, 9, 17, 9, 10, 17, 10, 18, 18, 10, 11,
    18, 11, 12, 18, 12, 19, 19, 12, 13, 19, 13, 14,
    19, 14, 15, 19, 15, 16, 19, 16, 17, 19, 17, 18,
];

/// Face planes of the dodecahedron: unit normals and offsets.
pub const DODECA_PLANES: [i32; 48] = [
    0, -5257, -8507, 12011, -8507, 0, -5257, 12011, -5257, -8507, 0, 12011,
    5257, -8507, 0, 12011, 8507, 0, -5257, 12011, 0, 5257, -8507, 12011,
    -5257, 8507, 0, 12011, -8507, 0, 5257, 12011, 0, -5257, 8507, 12011,
    8507, 0, 5257, 12011, 5257, 8507, 0, 12011, 0, 5257, 8507, 12011,
];

/// Faces of the dodecahedron: twelve pentagons.
pub const DODECA_POLYGONS: [u32; 72] = [
    5, 0, 4, 3, 2, 1, 5, 4, 0, 7, 6, 5,
    5, 0, 1, 9, 8, 7, 5, 1, 2, 11, 10, 9,
    5, 2, 3, 13, 12, 11, 5, 3, 4, 5, 14, 13,
    5, 15, 14, 5, 6, 16, 5, 16, 6, 7, 8, 17,
    5, 17, 8, 9, 10, 18, 5, 18, 10, 11, 12, 19,
    5, 19, 12, 13, 14, 15, 5, 19, 15, 16, 17, 18,
];

/// Vertices of the centred dodecahedron: those of the dodecahedron, then the
/// centre of each face.
pub const DODECA_CENTER_VTX: [i32; 96] = [
    -8727, -8727, -8727, 0, -14120, -5393, 8727, -8727, -8727, 5393, 0, -14120,
    -5393, 0, -14120, -8727, 8727, -8727, -14120, 5393, 0, -14120, -5393, 0,
    -8727, -8727, 8727, 0, -14120, 5393, 8727, -8727, 8727, 14120, -5393, 0,
    14120, 5393, 0, 8727, 8727, -8727, 0, 14120, -5393, 0, 14120, 5393,
    -8727, 8727, 8727, -5393, 0, 14120, 5393, 0, 14120, 8727, 8727, 8727,
    0, -6315, -10217, -10217, 0, -6315, -6315, -10217, 0, 6315, -10217, 0,
    10217, 0, -6315, 0, 6315, -10217, -6315, 10217, 0, -10217, 0, 6315,
    0, -6315, 10217, 10217, 0, 6315, 6315, 10217, 0, 0, 6315, 10217,
];

/// Triangles of the centred dodecahedron: each face fanned from its centre.
pub const DODECA_CENTER_INDICES: [u32; 180] = [
    20, 0, 4, 20, 4, 3, 20, 3, 2, 20, 2, 1,
    20, 1, 0, 21, 4, 0, 21, 0, 7, 21, 7, 6,
    21, 6, 5, 21, 5, 4, 22, 0, 1, 22, 1, 9,
    22, 9, 8, 22, 8, 7, 22, 7, 0, 23, 1, 2,
    23, 2, 11, 23, 11, 10, 23, 10, 9, 23, 9, 1,
    24, 2, 3, 24, 3, 13, 24, 13, 12, 24, 12, 11,
    24, 11, 2, 25, 3, 4, 25, 4, 5, 25, 5, 14,
    25, 14, 13, 25, 13, 3, 26, 15, 14, 26, 14, 5,
    26, 5, 6, 26, 6, 16, 26, 16, 15, 27, 16, 6,
    27, 6, 7, 27, 7, 8, 27, 8, 17, 27, 17, 16,
    28, 17, 8, 28, 8, 9, 28, 9, 10, 28, 10, 18,
    28, 18, 17, 29, 18, 10, 29, 10, 11, 29, 11, 12,
    29, 12, 19, 29, 19, 18, 30, 19, 12, 30, 12, 13,
    30, 13, 14, 30, 14, 15, 30, 15, 19, 31, 19, 15,
    31, 15, 16, 31, 16, 17, 31, 17, 18, 31, 18, 19,
];

/// Sums of the coordinates of the dodecahedron.
proof fn lemma_dodeca_sums()
    ensures
        axis_sum(DODECA_VTX@, 20, 0) == 0,
        axis_sum(DODECA_VTX@, 20, 1) == 0,
        axis_sum(DODECA_VTX@, 20, 2) == 0,
{
    let vtx = DODECA_VTX@;
    reveal_with_fuel(axis_sum, 5);
    assert(axis_sum(vtx, 4, 0) == 5393 && axis_sum(vtx, 4, 1) == -31574 && axis_sum(vtx, 4, 2) == -36967);
    assert(axis_sum(vtx, 8, 0) == -36967 && axis_sum(vtx, 8, 1) == -22847 && axis_sum(vtx, 8, 2) == -59814);
    assert(axis_sum(vtx, 12, 0) == -22847 && axis_sum(vtx, 12, 1) == -59814 && axis_sum(vtx, 12, 2) == -36967);
    assert(axis_sum(vtx, 16, 0) == 0 && axis_sum(vtx, 16, 1) == -17454 && axis_sum(vtx, 16, 2) == -45694);
    assert(axis_sum(vtx, 20, 0) == 0 && axis_sum(vtx, 20, 1) == 0 && axis_sum(vtx, 20, 2) == 0);
}

/// The faces of the dodecahedron, and where each starts.
proof fn lemma_dodeca_faces(count: int)
    requires
        count >= 20,
    ensures
        faces_ok(DODECA_POLYGONS@, 0, count),
        face_count(DODECA_POLYGONS@, 0) == 12,
        face_at(DODECA_POLYGONS@, 0, 0) == 0,
        face_at(DODECA_POLYGONS@, 0, 1) == 6,
        face_at(DODECA_POLYGONS@, 0, 2) == 12,
        face_at(DODECA_POLYGONS@, 0, 3) == 18,
        face_at(DODECA_POLYGONS@, 0, 4) == 24,
        face_at(DODECA_POLYGONS@, 0, 5) == 30,
        face_at(DODECA_POLYGONS@, 0, 6) == 36,
        face_at(DODECA_POLYGONS@, 0, 7) == 42,
        face_at(DODECA_POLYGONS@, 0, 8) == 48,
        face_at(DODECA_POLYGONS@, 0, 9) == 54,
        face_at(DODECA_POLYGONS@, 0, 10) == 60,
        face_at(DODECA_POLYGONS@, 0, 11) == 66,
{
    let polygons = DODECA_POLYGONS@;
    assert(face_count(polygons, 72) == 0);
    lemma_face_ok(polygons, 66, count);
    assert(face_count(polygons, 66) == 1);
    lemma_face_ok(polygons, 60, count);
    assert(face_count(polygons, 60) == 2);
    lemma_face_ok(polygons, 54, count);
    assert(face_count(polygons, 54) == 3);
    lemma_face_ok(polygons, 48, count);
    assert(face_count(polygons, 48) == 4);
    lemma_face_ok(polygons, 42, count);
    assert(face_count(polygons, 42) == 5);
    lemma_face_ok(polygons, 36, count);
    assert(face_count(polygons, 36) == 6);
    lemma_face_ok(polygons, 30, count);
    assert(face_count(polygons, 30) == 7);
    lemma_face_ok(polygons, 24, count);
    assert(face_count(polygons, 24) == 8);
    lemma_face_ok(polygons, 18, count);
    assert(face_count(polygons, 18) == 9);
    lemma_face_ok(polygons, 12, count);
    assert(face_count(polygons, 12) == 10);
    lemma_face_ok(polygons, 6, count);
    assert(face_count(polygons, 6) == 11);
    lemma_face_ok(polygons, 0, count);
    assert(face_count(polygons, 0) == 12);
    lemma_face_at_next(polygons, 0, 0);
    assert(face_at(polygons, 0, 1) == 6);
    lemma_face_at_next(polygons, 0, 1);
    assert(face_at(polygons, 0, 2) == 12);
    lemma_face_at_next(polygons, 0, 2);
    assert(face_at(polygons, 0, 3) == 18);
    lemma_face_at_next(polygons, 0, 3);
    assert(face_at(polygons, 0, 4) == 24);
    lemma_face_at_next(polygons, 0, 4);
    assert(face_at(polygons, 0, 5) == 30);
    lemma_face_at_next(polygons, 0, 5);
    assert(face_at(polygons, 0, 6) == 36);
    lemma_face_at_next(polygons, 0, 6);
    assert(face_at(polygons, 0, 7) == 42);
    lemma_face_at_next(polygons, 0, 7);
    assert(face_at(polygons, 0, 8) == 48);
    lemma_face_at_next(polygons, 0, 8);
    assert(face_at(polygons, 0, 9) == 54);
    lemma_face_at_next(polygons, 0, 9);
    assert(face_at(polygons, 0, 10) == 60);
    lemma_face_at_next(polygons, 0, 10);
    assert(face_at(polygons, 0, 11) == 66);
}

/// Triangles 0 to 15 of the dodecahedron lean outward.
proof fn lemma_dodeca_triangles_0(t: int)
    requires
        0 <= t < 16,
    ensures
        triangle_lean(DODECA_VTX@, DODECA_INDICES@, t) > 0,
{
    let vtx = DODECA_VTX@;
    lemma_dodeca_sums();
    assert(lean_at(-8727, -8727, -8727, -5393, 0, -14120, 5393, 0, -14120, 20, 0, 0, 0) > 0
        && lean_at(-8727, -8727, -8727, 5393, 0, -14120, 8727, -8727, -8727, 20, 0, 0, 0) > 0
        && lean_at(-8727, -8727, -8727, 8727, -8727, -8727, 0, -14120, -5393, 20, 0, 0, 0) > 0
        && lean_at(-5393, 0, -14120, -8727, -8727, -8727, -14120, -5393, 0, 20, 0, 0, 0) > 0
        && lean_at(-5393, 0, -14120, -14120, -5393, 0, -14120, 5393, 0, 20, 0, 0, 0) > 0
        && lean_at(-5393, 0, -14120, -14120, 5393, 0, -8727, 8727, -8727, 20, 0, 0, 0) > 0
        && lean_at(-8727, -8727, -8727, 0, -14120, -5393, 0, -14120, 5393, 20, 0, 0, 0) > 0
        && lean_at(-8727, -8727, -8727, 0, -14120, 5393, -8727, -8727, 8727, 20, 0, 0, 0) > 0
        && lean_at(-8727, -8727, -8727, -8727, -8727, 8727, -14120, -5393, 0, 20, 0, 0, 0) > 0
        && lean_at(0, -14120, -5393, 8727, -8727, -8727, 14120, -5393, 0, 20, 0, 0, 0) > 0
        && lean_at(0, -14120, -5393, 14120, -5393, 0, 8727, -8727, 8727, 20, 0, 0, 0) > 0
        && lean_at(0, -14120, -5393, 8727, -8727, 8727, 0, -14120, 5393, 20, 0, 0, 0) > 0
        && lean_at(8727, -8727, -8727, 5393, 0, -14120, 8727, 8727, -8727, 20, 0, 0, 0) > 0
        && lean_at(8727, -8727, -8727, 8727, 8727, -8727, 14120, 5393, 0, 20, 0, 0, 0) > 0
        && lean_at(8727, -8727, -8727, 14120, 5393, 0, 14120, -5393, 0, 20, 0, 0, 0) > 0
        && lean_at(5393, 0, -14120, -5393, 0, -14120, -8727, 8727, -8727, 20, 0, 0, 0) > 0) by (nonlinear_arith);
    if t == 0 {
        lemma_lean_at(vtx, 0, 4, 3);
    } else if t == 1 {
        lemma_lean_at(vtx, 0, 3, 2);
    } else if t == 2 {
        lemma_lean_at(vtx, 0, 2, 1);
    } else if t == 3 {
        lemma_lean_at(vtx, 4, 0, 7);
    } else if t == 4 {
        lemma_lean_at(vtx, 4, 7, 6);
    } else if t == 5 {
        lemma_lean_at(vtx, 4, 6, 5);
    } else if t == 6 {
        lemma_lean_at(vtx, 0, 1, 9);
    } else if t == 7 {
        lemma_lean_at(vtx, 0, 9, 8);
    } else if t == 8 {
        lemma_lean_at(vtx, 0, 8, 7);
    } else if t == 9 {
        lemma_lean_at(vtx, 1, 2, 11);
    } else if t == 10 {
        lemma_lean_at(vtx, 1, 11, 10);
    } else if t == 11 {
        lemma_lean_at(vtx, 1, 10, 9);
    } else if t == 12 {
        lemma_lean_at(vtx, 2, 3, 13);
    } else if t == 13 {
        lemma_lean_at(vtx, 2, 13, 12);
    } else if t == 14 {
        lemma_lean_at(vtx, 2, 12, 11);
    } else if t == 15 {
        lemma_lean_at(vtx, 3, 4, 5);
    }
}

/// Triangles 16 to 31 of the dodecahedron lean outward.
proof fn lemma_dodeca_triangles_16(t: int)
    requires
        16 <= t < 32,
    ensures
        triangle_lean(DODECA_VTX@, DODECA_INDICES@, t) > 0,
{
    let vtx = DODECA_VTX@;
    lemma_dodeca_sums();
    assert(lean_at(5393, 0, -14120, -8727, 8727, -8727, 0, 14120, -5393, 20, 0, 0, 0) > 0
        && lean_at(5393, 0, -14120, 0, 14120, -5393, 8727, 8727, -8727, 20, 0, 0, 0) > 0
        && lean_at(0, 14120, 5393, 0, 14120, -5393, -8727, 8727, -8727, 20, 0, 0, 0) > 0
        && lean_at(0, 14120, 5393, -8727, 8727, -8727, -14120, 5393, 0, 20, 0, 0, 0) > 0
        && lean_at(0, 14120, 5393, -14120, 5393, 0, -8727, 8727, 8727, 20, 0, 0, 0) > 0
        && lean_at(-8727, 8727, 8727, -14120, 5393, 0, -14120, -5393, 0, 20, 0, 0, 0) > 0
        && lean_at(-8727, 8727, 8727, -14120, -5393, 0, -8727, -8727, 8727, 20, 0, 0, 0) > 0
        && lean_at(-8727, 8727, 8727, -8727, -8727, 8727, -5393, 0, 14120, 20, 0, 0, 0) > 0
        && lean_at(-5393, 0, 14120, -8727, -8727, 8727, 0, -14120, 5393, 20, 0, 0, 0) > 0
        && lean_at(-5393, 0, 14120, 0, -14120, 5393, 8727, -8727, 8727, 20, 0, 0, 0) > 0
        && lean_at(-5393, 0, 14120, 8727, -8727, 8727, 5393, 0, 14120, 20, 0, 0, 0) > 0
        && lean_at(5393, 0, 14120, 8727, -8727, 8727, 14120, -5393, 0, 20, 0, 0, 0) > 0
        && lean_at(5393, 0, 14120, 14120, -5393, 0, 14120, 5393, 0, 20, 0, 0, 0) > 0
        && lean_at(5393, 0, 14120, 14120, 5393, 0, 8727, 8727, 8727, 20, 0, 0, 0) > 0
        && lean_at(8727, 8727, 8727, 14120, 5393, 0, 8727, 8727, -8727, 20, 0, 0, 0) > 0
        && lean_at(8727, 8727, 8727, 8727, 8727, -8727, 0, 14120, -5393, 20, 0, 0, 0) > 0) by (nonlinear_arith);
    if t == 16 {
        lemma_lean_at(vtx, 3, 5, 14);
    } else if t == 17 {
        lemma_lean_at(vtx, 3, 14, 13);
    } else if t == 18 {
        lemma_lean_at(vtx, 15, 14, 5);
    } else if t == 19 {
        lemma_lean_at(vtx, 15, 5, 6);
    } else if t == 20 {
        lemma_lean_at(vtx, 15, 6, 16);
    } else if t == 21 {
        lemma_lean_at(vtx, 16, 6, 7);
    } else if t == 22 {
        lemma_lean_at(vtx, 16, 7, 8);
    } else if t == 23 {
        lemma_lean_at(vtx, 16, 8, 17);
    } else if t == 24 {
        lemma_lean_at(vtx, 17, 8, 9);
    } else if t == 25 {
        lemma_lean_at(vtx, 17, 9, 10);
    } else if t == 26 {
        lemma_lean_at(vtx, 17, 10, 18);
    } else if t == 27 {
        lemma_lean_at(vtx, 18, 10, 11);
    } else if t == 28 {
        lemma_lean_at(vtx, 18, 11, 12);
    } else if t == 29 {
        lemma_lean_at(vtx, 18, 12, 19);
    } else if t == 30 {
        lemma_lean_at(vtx, 19, 12, 13);
    } else if t == 31 {
        lemma_lean_at(vtx, 19, 13, 14);
    }
}

/// Triangles 32 to 35 of the dodecahedron lean outward.
proof fn lemma_dodeca_triangles_32(t: int)
    requires
        32 <= t < 36,
    ensures
        triangle_lean(DODECA_VTX@, DODECA_INDICES@, t) > 0,
{
    let vtx = DODECA_VTX@;
    lemma_dodeca_sums();
    assert(lean_at(8727, 8727, 8727, 0, 14120, -5393, 0, 14120, 5393, 20, 0, 0, 0) > 0
        && lean_at(8727, 8727, 8727, 0, 14120, 5393, -8727, 8727, 8727, 20, 0, 0, 0) > 0
        && lean_at(8727, 8727, 8727, -8727, 8727, 8727, -5393, 0, 14120, 20, 0, 0, 0) > 0
        && lean_at(8727, 8727, 8727, -5393, 0, 14120, 5393, 0, 14120, 20, 0, 0, 0) > 0) by (nonlinear_arith);
    if t == 32 {
        lemma_lean_at(vtx, 19, 14, 15);
    } else if t == 33 {
        lemma_lean_at(vtx, 19, 15, 16);
    } else if t == 34 {
        lemma_lean_at(vtx, 19, 16, 17);
    } else if t == 35 {
        lemma_lean_at(vtx, 19, 17, 18);
    }
}

/// Planes 0 to 11 of the dodecahedron look outward.
proof fn lemma_dodeca_planes_0(f: int)
    requires
        0 <= f < 12,
    ensures
        plane_away(DODECA_VTX@, DODECA_POLYGONS@, DODECA_PLANES@, f) > 0,
{
    let vtx = DODECA_VTX@;
    lemma_dodeca_sums();
    lemma_dodeca_faces(20);
    assert(away_at(-8727, -8727, -8727, 0, -5257, -8507, 20, 0, 0, 0) > 0
        && away_at(-5393, 0, -14120, -8507, 0, -5257, 20, 0, 0, 0) > 0
        && away_at(-8727, -8727, -8727, -5257, -8507, 0, 20, 0, 0, 0) > 0
        && away_at(0, -14120, -5393, 5257, -8507, 0, 20, 0, 0, 0) > 0
        && away_at(8727, -8727, -8727, 8507, 0, -5257, 20, 0, 0, 0) > 0
        && away_at(5393, 0, -14120, 0, 5257, -8507, 20, 0, 0, 0) > 0
        && away_at(0, 14120, 5393, -5257, 8507, 0, 20, 0, 0, 0) > 0
        && away_at(-8727, 8727, 8727, -8507, 0, 5257, 20, 0, 0, 0) > 0
        && away_at(-5393, 0, 14120, 0, -5257, 8507, 20, 0, 0, 0) > 0
        && away_at(5393, 0, 14120, 8507, 0, 5257, 20, 0, 0, 0) > 0
        && away_at(8727, 8727, 8727, 5257, 8507, 0, 20, 0, 0, 0) > 0
        && away_at(8727, 8727, 8727, 0, 5257, 8507, 20, 0, 0, 0) > 0) by (nonlinear_arith);
    if f == 0 {
        lemma_away_at(vtx, 0, 0, -5257, -8507);
    } else if f == 1 {
        lemma_away_at(vtx, 4, -8507, 0, -5257);
    } else if f == 2 {
        lemma_away_at(vtx, 0, -5257, -8507, 0);
    } else if f == 3 {
        lemma_away_at(vtx, 1, 5257, -8507, 0);
    } else if f == 4 {
        lemma_away_at(vtx, 2, 8507, 0, -5257);
    } else if f == 5 {
        lemma_away_at(vtx, 3, 0, 5257, -8507);
    } else if f == 6 {
        lemma_away_at(vtx, 15, -5257, 8507, 0);
    } else if f == 7 {
        lemma_away_at(vtx, 16, -8507, 0, 5257);
    } else if f == 8 {
        lemma_away_at(vtx, 17, 0, -5257, 8507);
    } else if f == 9 {
        lemma_away_at(vtx, 18, 8507, 0, 5257);
    } else if f == 10 {
        lemma_away_at(vtx, 19, 5257, 8507, 0);
    } else if f == 11 {
        lemma_away_at(vtx, 19, 0, 5257, 8507);
    }
}

/// The table of the dodecahedron is the descriptor of a solid whose faces look
/// outward.
pub proof fn lemma_dodeca_table()
    ensures
        buffers_valid(DODECA_VTX@, DODECA_INDICES@, DODECA_PLANES@, DODECA_POLYGONS@),
{
    let vtx = DODECA_VTX@;
    let indices = DODECA_INDICES@;
    let planes = DODECA_PLANES@;
    let polygons = DODECA_POLYGONS@;
    lemma_dodeca_faces(20);
    assert(coord(vtx, 1, 0) != coord(vtx, 0, 0));
    assert(coord(vtx, 1, 1) != coord(vtx, 0, 1));
    assert(coord(vtx, 1, 2) != coord(vtx, 0, 2));
    assert forall|t: int| 0 <= t < 36 implies #[trigger] triangle_lean(vtx, indices, t) > 0 by {
        if t < 16 {
            lemma_dodeca_triangles_0(t);
        } else if t < 32 {
            lemma_dodeca_triangles_16(t);
        } else if t < 36 {
            lemma_dodeca_triangles_32(t);
        }
    }
    assert forall|f: int| 0 <= f < 12 implies #[trigger] plane_away(vtx, polygons, planes, f) > 0 by {
        if f < 12 {
            lemma_dodeca_planes_0(f);
        }
    }
}

/// Sums of the coordinates of the centred dodecahedron.
proof fn lemma_dodeca_center_sums()
    ensures
        axis_sum(DODECA_CENTER_VTX@, 32, 0) == 0,
        axis_sum(DODECA_CENTER_VTX@, 32, 1) == 0,
        axis_sum(DODECA_CENTER_VTX@, 32, 2) == 0,
{
    let vtx = DODECA_CENTER_VTX@;
    reveal_with_fuel(axis_sum, 5);
    assert(axis_sum(vtx, 4, 0) == 5393 && axis_sum(vtx, 4, 1) == -31574 && axis_sum(vtx, 4, 2) == -36967);
    assert(axis_sum(vtx, 8, 0) == -36967 && axis_sum(vtx, 8, 1) == -22847 && axis_sum(vtx, 8, 2) == -59814);
    assert(axis_sum(vtx, 12, 0) == -22847 && axis_sum(vtx, 12, 1) == -59814 && axis_sum(vtx, 12, 2) == -36967);
    assert(axis_sum(vtx, 16, 0) == 0 && axis_sum(vtx, 16, 1) == -17454 && axis_sum(vtx, 16, 2) == -45694);
    assert(axis_sum(vtx, 20, 0) == 0 && axis_sum(vtx, 20, 1) == 0 && axis_sum(vtx, 20, 2) == 0);
    assert(axis_sum(vtx, 24, 0) == -10217 && axis_sum(vtx, 24, 1) == -26749 && axis_sum(vtx, 24, 2) == -16532);
    assert(axis_sum(vtx, 28, 0) == -16532 && axis_sum(vtx, 28, 1) == -10217 && axis_sum(vtx, 28, 2) == -26749);
    assert(axis_sum(vtx, 32, 0) == 0 && axis_sum(vtx, 32, 1) == 0 && axis_sum(vtx, 32, 2) == 0);
}

/// Triangles 0 to 15 of the centred dodecahedron lean outward.
proof fn lemma_dodeca_center_triangles_0(t: int)
    requires
        0 <= t < 16,
    ensures
        triangle_lean(DODECA_CENTER_VTX@, DODECA_CENTER_INDICES@, t) > 0,
{
    let vtx = DODECA_CENTER_VTX@;
    lemma_dodeca_center_sums();
    assert(lean_at(0, -6315, -10217, -8727, -8727, -8727, -5393, 0, -14120, 32, 0, 0, 0) > 0
        && lean_at(0, -6315, -10217, -5393, 0, -14120, 5393, 0, -14120, 32, 0, 0, 0) > 0
        && lean_at(0, -6315, -10217, 5393, 0, -14120, 8727, -8727, -8727, 32, 0, 0, 0) > 0
        && lean_at(0, -6315, -10217, 8727, -8727, -8727, 0, -14120, -5393, 32, 0, 0, 0) > 0
        && lean_at(0, -6315, -10217, 0, -14120, -5393, -8727, -8727, -8727, 32, 0, 0, 0) > 0
        && lean_at(-10217, 0, -6315, -5393, 0, -14120, -8727, -8727, -8727, 32, 0, 0, 0) > 0
        && lean_at(-10217, 0, -6315, -8727, -8727, -8727, -14120, -5393, 0, 32, 0, 0, 0) > 0
        && lean_at(-10217, 0, -6315, -14120, -5393, 0, -14120, 5393, 0, 32, 0, 0, 0) > 0
        && lean_at(-10217, 0, -6315, -14120, 5393, 0, -8727, 8727, -8727, 32, 0, 0, 0) > 0
        && lean_at(-10217, 0, -6315, -8727, 8727, -8727, -5393, 0, -14120, 32, 0, 0, 0) > 0
        && lean_at(-6315, -10217, 0, -8727, -8727, -8727, 0, -14120, -5393, 32, 0, 0, 0) > 0
        && lean_at(-6315, -10217, 0, 0, -14120, -5393, 0, -14120, 5393, 32, 0, 0, 0) > 0
        && lean_at(-6315, -10217, 0, 0, -14120, 5393, -8727, -8727, 8727, 32, 0, 0, 0) > 0
        && lean_at(-6315, -10217, 0, -8727, -8727, 8727, -14120, -5393, 0, 32, 0, 0, 0) > 0
        && lean_at(-6315, -10217, 0, -14120, -5393, 0, -8727, -8727, -8727, 32, 0, 0, 0) > 0
        && lean_at(6315, -10217, 0, 0, -14120, -5393, 8727, -8727, -8727, 32, 0, 0, 0) > 0) by (nonlinear_arith);
    if t == 0 {
        lemma_lean_at(vtx, 20, 0, 4);
    } else if t == 1 {
        lemma_lean_at(vtx, 20, 4, 3);
    } else if t == 2 {
        lemma_lean_at(vtx, 20, 3, 2);
    } else if t == 3 {
        lemma_lean_at(vtx, 20, 2, 1);
    } else if t == 4 {
        lemma_lean_at(vtx, 20, 1, 0);
    } else if t == 5 {
        lemma_lean_at(vtx, 21, 4, 0);
    } else if t == 6 {
        lemma_lean_at(vtx, 21, 0, 7);
    } else if t == 7 {
        lemma_lean_at(vtx, 21, 7, 6);
    } else if t == 8 {
        lemma_lean_at(vtx, 21, 6, 5);
    } else if t == 9 {
        lemma_lean_at(vtx, 21, 5, 4);
    } else if t == 10 {
        lemma_lean_at(vtx, 22, 0, 1);
    } else if t == 11 {
        lemma_lean_at(vtx, 22, 1, 9);
    } else if t == 12 {
        lemma_lean_at(vtx, 22, 9, 8);
    } else if t == 13 {
        lemma_lean_at(vtx, 22, 8, 7);
    } else if t == 14 {
        lemma_lean_at(vtx, 22, 7, 0);
    } else if t == 15 {
        lemma_lean_at(vtx, 23, 1, 2);
    }
}

/// Triangles 16 to 31 of the centred dodecahedron lean outward.
proof fn lemma_dodeca_center_triangles_16(t: int)
    requires
        16 <= t < 32,
    ensures
        triangle_lean(DODECA_CENTER_VTX@, DODECA_CENTER_INDICES@, t) > 0,
{
    let vtx = DODECA_CENTER_VTX@;
    lemma_dodeca_center_sums();
    assert(lean_at(6315, -10217, 0, 8727, -8727, -8727, 14120, -5393, 0, 32, 0, 0, 0) > 0
        && lean_at(6315, -10217, 0, 14120, -5393, 0, 8727, -8727, 8727, 32, 0, 0, 0) > 0
        && lean_at(6315, -10217, 0, 8727, -8727, 8727, 0, -14120, 5393, 32, 0, 0, 0) > 0
        && lean_at(6315, -10217, 0, 0, -14120, 5393, 0, -14120, -5393, 32, 0, 0, 0) > 0
        && lean_at(10217, 0, -6315, 8727, -8727, -8727, 5393, 0, -14120, 32, 0, 0, 0) > 0
        && lean_at(10217, 0, -6315, 5393, 0, -14120, 8727, 8727, -8727, 32, 0, 0, 0) > 0
        && lean_at(10217, 0, -6315, 8727, 8727, -8727, 14120, 5393, 0, 32, 0, 0, 0) > 0
        && lean_at(10217, 0, -6315, 14120, 5393, 0, 14120, -5393, 0, 32, 0, 0, 0) > 0
        && lean_at(10217, 0, -6315, 14120, -5393, 0, 8727, -8727, -8727, 32, 0, 0, 0) > 0
        && lean_at(0, 6315, -10217, 5393, 0, -14120, -5393, 0, -14120, 32, 0, 0, 0) > 0
        && lean_at(0, 6315, -10217, -5393, 0, -14120, -8727, 8727, -8727, 32, 0, 0, 0) > 0
        && lean_at(0, 6315, -10217, -8727, 8727, -8727, 0, 14120, -5393, 32, 0, 0, 0) > 0
        && lean_at(0, 6315, -10217, 0, 14120, -5393, 8727, 8727, -8727, 32, 0, 0, 0) > 0
        && lean_at(0, 6315, -10217, 8727, 8727, -8727, 5393, 0, -14120, 32, 0, 0, 0) > 0
        && lean_at(-6315, 10217, 0, 0, 14120, 5393, 0, 14120, -5393, 32, 0, 0, 0) > 0
        && lean_at(-6315, 10217, 0, 0, 14120, -5393, -8727, 8727, -8727, 32, 0, 0, 0) > 0) by (nonlinear_arith);
    if t == 16 {
        lemma_lean_at(vtx, 23, 2, 11);
    } else if t == 17 {
        lemma_lean_at(vtx, 23, 11, 10);
    } else if t == 18 {
        lemma_lean_at(vtx, 23, 10, 9);
    } else if t == 19 {
        lemma_lean_at(vtx, 23, 9, 1);
    } else if t == 20 {
        lemma_lean_at(vtx, 24, 2, 3);
    } else if t == 21 {
        lemma_lean_at(vtx, 24, 3, 13);
    } else if t == 22 {
        lemma_lean_at(vtx, 24, 13, 12);
    } else if t == 23 {
        lemma_lean_at(vtx, 24, 12, 11);
    } else if t == 24 {
        lemma_lean_at(vtx, 24, 11, 2);
    } else if t == 25 {
        lemma_lean_at(vtx, 25, 3, 4);
    } else if t == 26 {
        lemma_lean_at(vtx, 25, 4, 5);
    } else if t == 27 {
        lemma_lean_at(vtx, 25, 5, 14);
    } else if t == 28 {
        lemma_lean_at(vtx, 25, 14, 13);
    } else if t == 29 {
        lemma_lean_at(vtx, 25, 13, 3);
    } else if t == 30 {
        lemma_lean_at(vtx, 26, 15, 14);
    } else if t == 31 {
        lemma_lean_at(vtx, 26, 14, 5);
    }
}

/// Triangles 32 to 47 of the centred dodecahedron lean outward.
proof fn lemma_dodeca_center_triangles_32(t: int)
    requires
        32 <= t < 48,
    ensures
        triangle_lean(DODECA_CENTER_VTX@, DODECA_CENTER_INDICES@, t) > 0,
{
    let vtx = DODECA_CENTER_VTX@;
    lemma_dodeca_center_sums();
    assert(lean_at(-6315, 10217, 0, -8727, 8727, -8727, -14120, 5393, 0, 32, 0, 0, 0) > 0
        && lean_at(-6315, 10217, 0, -14120, 5393, 0, -8727, 8727, 8727, 32, 0, 0, 0) > 0
        && lean_at(-6315, 10217, 0, -8727, 8727, 8727, 0, 14120, 5393, 32, 0, 0, 0) > 0
        && lean_at(-10217, 0, 6315, -8727, 8727, 8727, -14120, 5393, 0, 32, 0, 0, 0) > 0
        && lean_at(-10217, 0, 6315, -14120, 5393, 0, -14120, -5393, 0, 32, 0, 0, 0) > 0
        && lean_at(-10217, 0, 6315, -14120, -5393, 0, -8727, -8727, 8727, 32, 0, 0, 0) > 0
        && lean_at(-10217, 0, 6315, -8727, -8727, 8727, -5393, 0, 14120, 32, 0, 0, 0) > 0
        && lean_at(-10217, 0, 6315, -5393, 0, 14120, -8727, 8727, 8727, 32, 0, 0, 0) > 0
        && lean_at(0, -6315, 10217, -5393, 0, 14120, -8727, -8727, 8727, 32, 0, 0, 0) > 0
        && lean_at(0, -6315, 10217, -8727, -8727, 8727, 0, -14120, 5393, 32, 0, 0, 0) > 0
        && lean_at(0, -6315, 10217, 0, -14120, 5393, 8727, -8727, 8727, 32, 0, 0, 0) > 0
        && lean_at(0, -6315, 10217, 8727, -8727, 8727, 5393, 0, 14120, 32, 0, 0, 0) > 0
        && lean_at(0, -6315, 10217, 5393, 0, 14120, -5393, 0, 14120, 32, 0, 0, 0) > 0
        && lean_at(10217, 0, 6315, 5393, 0, 14120, 8727, -8727, 8727, 32, 0, 0, 0) > 0
        && lean_at(10217, 0, 6315, 8727, -8727, 8727, 14120, -5393, 0, 32, 0, 0, 0) > 0
        && lean_at(10217, 0, 6315, 14120, -5393, 0, 14120, 5393, 0, 32, 0, 0, 0) > 0) by (nonlinear_arith);
    if t == 32 {
        lemma_lean_at(vtx, 26, 5, 6);
    } else if t == 33 {
        lemma_lean_at(vtx, 26, 6, 16);
    } else if t == 34 {
        lemma_lean_at(vtx, 26, 16, 15);
    } else if t == 35 {
        lemma_lean_at(vtx, 27, 16, 6);
    } else if t == 36 {
        lemma_lean_at(vtx, 27, 6, 7);
    } else if t == 37 {
        lemma_lean_at(vtx, 27, 7, 8);
    } else if t == 38 {
        lemma_lean_at(vtx, 27, 8, 17);
    } else if t == 39 {
        lemma_lean_at(vtx, 27, 17, 16);
    } else if t == 40 {
        lemma_lean_at(vtx, 28, 17, 8);
    } else if t == 41 {
        lemma_lean_at(vtx, 28, 8, 9);
    } else if t == 42 {
        lemma_lean_at(vtx, 28, 9, 10);
    } else if t == 43 {
        lemma_lean_at(vtx, 28, 10, 18);
    } else if t == 44 {
        lemma_lean_at(vtx, 28, 18, 17);
    } else if t == 45 {
        lemma_lean_at(vtx, 29, 18, 10);
    } else if t == 46 {
        lemma_lean_at(vtx, 29, 10, 11);
    } else if t == 47 {
        lemma_lean_at(vtx, 29, 11, 12);
    }
}

/// Triangles 48 to 59 of the centred dodecahedron lean outward.
proof fn lemma_dodeca_center_triangles_48(t: int)
    requires
        48 <= t < 60,
    ensures
        triangle_lean(DODECA_CENTER_VTX@, DODECA_CENTER_INDICES@, t) > 0,
{
    let vtx = DODECA_CENTER_VTX@;
    lemma_dodeca_center_sums();
    assert(lean_at(10217, 0, 6315, 14120, 5393, 0, 8727, 8727, 8727, 32, 0, 0, 0) > 0
        && lean_at(10217, 0, 6315, 8727, 8727, 8727, 5393, 0, 14120, 32, 0, 0, 0) > 0
        && lean_at(6315, 10217, 0, 8727, 8727, 8727, 14120, 5393, 0, 32, 0, 0, 0) > 0
        && lean_at(6315, 10217, 0, 14120, 5393, 0, 8727, 8727, -8727, 32, 0, 0, 0) > 0
        && lean_at(6315, 10217, 0, 8727, 8727, -8727, 0, 14120, -5393, 32, 0, 0, 0) > 0
        && lean_at(6315, 10217, 0, 0, 14120, -5393, 0, 14120, 5393, 32, 0, 0, 0) > 0
        && lean_at(6315, 10217, 0, 0, 14120, 5393, 8727, 8727, 8727, 32, 0, 0, 0) > 0
        && lean_at(0, 6315, 10217, 8727, 8727, 8727, 0, 14120, 5393, 32, 0, 0, 0) > 0
        && lean_at(0, 6315, 10217, 0, 14120, 5393, -8727, 8727, 8727, 32, 0, 0, 0) > 0
        && lean_at(0, 6315, 10217, -8727, 8727, 8727, -5393, 0, 14120, 32, 0, 0, 0) > 0
        && lean_at(0, 6315, 10217, -5393, 0, 14120, 5393, 0, 14120, 32, 0, 0, 0) > 0
        && lean_at(0, 6315, 10217, 5393, 0, 14120, 8727, 8727, 8727, 32, 0, 0, 0) > 0) by (nonlinear_arith);
    if t == 48 {
        lemma_lean_at(vtx, 29, 12, 19);
    } else if t == 49 {
        lemma_lean_at(vtx, 29, 19, 18);
    } else if t == 50 {
        lemma_lean_at(vtx, 30, 19, 12);
    } else if t == 51 {
        lemma_lean_at(vtx, 30, 12, 13);
    } else if t == 52 {
        lemma_lean_at(vtx, 30, 13, 14);
    } else if t == 53 {
        lemma_lean_at(vtx, 30, 14, 15);
    } else if t == 54 {
        lemma_lean_at(vtx, 30, 15, 19);
    } else if t == 55 {
        lemma_lean_at(vtx, 31, 19, 15);
    } else if t == 56 {
        lemma_lean_at(vtx, 31, 15, 16);
    } else if t == 57 {
        lemma_lean_at(vtx, 31, 16, 17);
    } else if t == 58 {
        lemma_lean_at(vtx, 31, 17, 18);
    } else if t == 59 {
        lemma_lean_at(vtx, 31, 18, 19);
    }
}

/// Planes 0 to 11 of the centred dodecahedron look outward.
proof fn lemma_dodeca_center_planes_0(f: int)
    requires
        0 <= f < 12,
    ensures
        plane_away(DODECA_CENTER_VTX@, DODECA_POLYGONS@, DODECA_PLANES@, f) > 0,
{
    let vtx = DODECA_CENTER_VTX@;
    lemma_dodeca_center_sums();
    lemma_dodeca_faces(32);
    assert(away_at(-8727, -8727, -8727, 0, -5257, -8507, 32, 0, 0, 0) > 0
        && away_at(-5393, 0, -14120, -8507, 0, -5257, 32, 0, 0, 0) > 0
        && away_at(-8727, -8727, -8727, -5257, -8507, 0, 32, 0, 0, 0) > 0
        && away_at(0, -14120, -5393, 5257, -8507, 0, 32, 0, 0, 0) > 0
        && away_at(8727, -8727, -8727, 8507, 0, -5257, 32, 0, 0, 0) > 0
        && away_at(5393, 0, -14120, 0, 5257, -8507, 32, 0, 0, 0) > 0
        && away_at(0, 14120, 5393, -5257, 8507, 0, 32, 0, 0, 0) > 0
        && away_at(-8727, 8727, 8727, -8507, 0, 5257, 32, 0, 0, 0) > 0
        && away_at(-5393, 0, 14120, 0, -5257, 8507, 32, 0, 0, 0) > 0
        && away_at(5393, 0, 14120, 8507, 0, 5257, 32, 0, 0, 0) > 0
        && away_at(8727, 8727, 8727, 5257, 8507, 0, 32, 0, 0, 0) > 0
        && away_at(8727, 8727, 8727, 0, 5257, 8507, 32, 0, 0, 0) > 0) by (nonlinear_arith);
    if f == 0 {
        lemma_away_at(vtx, 0, 0, -5257, -8507);
    } else if f == 1 {
        lemma_away_at(vtx, 4, -8507, 0, -5257);
    } else if f == 2 {
        lemma_away_at(vtx, 0, -5257, -8507, 0);
    } else if f == 3 {
        lemma_away_at(vtx, 1, 5257, -8507, 0);
    } else if f == 4 {
        lemma_away_at(vtx, 2, 8507, 0, -5257);
    } else if f == 5 {
        lemma_away_at(vtx, 3, 0, 5257, -8507);
    } else if f == 6 {
        lemma_away_at(vtx, 15, -5257, 8507, 0);
    } else if f == 7 {
        lemma_away_at(vtx, 16, -8507, 0, 5257);
    } else if f == 8 {
        lemma_away_at(vtx, 17, 0, -5257, 8507);
    } else if f == 9 {
        lemma_away_at(vtx, 18, 8507, 0, 5257);
    } else if f == 10 {
        lemma_away_at(vtx, 19, 5257, 8507, 0);
    } else if f == 11 {
        lemma_away_at(vtx, 19, 0, 5257, 8507);
    }
}

/// The table of the centred dodecahedron is the descriptor of a solid whose faces look
/// outward.
pub proof fn lemma_dodeca_center_table()
    ensures
        buffers_valid(DODECA_CENTER_VTX@, DODECA_CENTER_INDICES@, DODECA_PLANES@, DODECA_POLYGONS@),
{
    let vtx = DODECA_CENTER_VTX@;
    let indices = DODECA_CENTER_INDICES@;
    let planes = DODECA_PLANES@;
    let polygons = DODECA_POLYGONS@;
    lemma_dodeca_faces(32);
    assert(coord(vtx, 1, 0) != coord(vtx, 0, 0));
    assert(coord(vtx, 1, 1) != coord(vtx, 0, 1));
    assert(coord(vtx, 1, 2) != coord(vtx, 0, 2));
    assert forall|t: int| 0 <= t < 60 implies #[trigger] triangle_lean(vtx, indices, t) > 0 by {
        if t < 16 {
            lemma_dodeca_center_triangles_0(t);
        } else if t < 32 {
            lemma_dodeca_center_triangles_16(t);
        } else if t < 48 {
            lemma_dodeca_center_triangles_32(t);
        } else if t < 60 {
            lemma_dodeca_center_triangles_48(t);
        }
    }
    assert forall|f: int| 0 <= f < 12 implies #[trigger] plane_away(vtx, polygons, planes, f) > 0 by {
        if f < 12 {
            lemma_dodeca_center_planes_0(f);
        }
    }
}


/// A dodecahedron as a mesh.
#[derive(Debug)]
pub struct Dodecahedron {
    /// The descriptor.
    pub ph: Polyhedron,
}

impl Dodecahedron {
    /// A dodecahedron that is not set up.
    pub fn void() -> (d: Dodecahedron)
        ensures
            d.ph.vtx@.len() == 0,
            d.ph.indices@.len() == 0,
            d.ph.planes@.len() == 0,
            d.ph.polygons@.len() == 0,
            d.ph.r == 100,
    {
        Dodecahedron { ph: Polyhedron::void() }
    }

    /// Sets the mesh up at `scale` hundredths, centred or plain. `Err`, and
    /// nothing changed, for a scale of zero or above `MAX_SCALE`; else the
    /// descriptor is valid, and its hull has the twelve pentagons either way.
    pub fn setup(&mut self, scale: u32, center: bool) -> (r: Result<(), GeometryError>)
        ensures
            r == (if 1 <= scale <= MAX_SCALE {
                Ok::<(), GeometryError>(())
            } else {
                Err(GeometryError::Scale)
            }),
            r is Err ==> *final(self) == *old(self),
            r is Ok ==> {
                &&& scaled(if center { DODECA_CENTER_VTX@ } else { DODECA_VTX@ }, final(self).ph.vtx@, scale as int)
                &&& final(self).ph.indices@ == (if center { DODECA_CENTER_INDICES@ } else { DODECA_INDICES@ })
                &&& planes_scaled(DODECA_PLANES@, final(self).ph.planes@, scale as int)
                &&& final(self).ph.polygons@ == DODECA_POLYGONS@
                &&& final(self).ph.r == scale
                &&& final(self).ph.valid()
            },
    {
        if scale < 1 || scale > MAX_SCALE {
            return Err(GeometryError::Scale);
        }
        if center {
            proof {
                lemma_dodeca_center_table();
            }
            fill(&mut self.ph, &DODECA_CENTER_VTX, &DODECA_CENTER_INDICES, &DODECA_PLANES, &DODECA_POLYGONS, scale);
        } else {
            proof {
                lemma_dodeca_table();
            }
            fill(&mut self.ph, &DODECA_VTX, &DODECA_INDICES, &DODECA_PLANES, &DODECA_POLYGONS, scale);
        }
        Ok(())
    }
}

} // verus!
