//! The truncated icosahedron, plain and centred, as tables in
//! ten-thousandths: each vertex a third of the way along an edge of the
//! icosahedron of edge two. Twelve pentagons and twenty hexagons are the
//! faces of the hull either way.

use vstd::prelude::*;
use crate::geometry::{
    axis_sum, buffers_valid, coord, face_at, face_count, faces_ok, lean, lemma_face_at_next, lemma_face_ok,
    plane_away, triangle_lean,
};
use crate::solids::{away_at, lean_at, lemma_away_at, lemma_lean_at};

verus! {

/// Vertices of the truncated icosahedron.
pub const C60_VTX: [i32; 180] = [
    0, -3333, -16180, 5393, -6667, -14120, 3333, -12060, -10787, -3333, -12060, -10787,
    -5393, -6667, -14120, -16180, 0, -3333, -14120, 5393, -6667, -10787, 3333, -12060,
    -10787, -3333, -12060, -14120, -5393, -6667, -3333, -16180, 0, -6667, -14120, 5393,
    -12060, -10787, 3333, -12060, -10787, -3333, -6667, -14120, -5393, 3333, -16180, 0,
    6667, -14120, -5393, 12060, -10787, -3333, 12060, -10787, 3333, 6667, -14120, 5393,
    16180, 0, -3333, 14120, -5393, -6667, 10787, -3333, -12060, 10787, 3333, -12060,
    14120, 5393, -6667, 0, 3333, -16180, -5393, 6667, -14120, -3333, 12060, -10787,
    3333, 12060, -10787, 5393, 6667, -14120, -3333, 16180, 0, -6667, 14120, -5393,
    -12060, 10787, -3333, -12060, 10787, 3333, -6667, 14120, 5393, -16180, 0, 3333,
    -14120, -5393, 6667, -10787, -3333, 12060, -10787, 3333, 12060, -14120, 5393, 6667,
    0, -3333, 16180, -5393, -6667, 14120, -3333, -12060, 10787, 3333, -12060, 10787,
    5393, -6667, 14120, 16180, 0, 3333, 14120, 5393, 6667, 10787, 3333, 12060,
    10787, -3333, 12060, 14120, -5393, 6667, 3333, 16180, 0, 6667, 14120, 5393,
    12060, 10787, 3333, 12060, 10787, -3333, 6667, 14120, -5393, 0, 3333, 16180,
    5393, 6667, 14120, 3333, 12060, 10787, -3333, 12060, 10787, -5393, 6667, 14120,
];

/// Triangles of the truncated icosahedron: each face fanned from its first corner.
pub const C60_INDICES: [u32; 348] = [
    0, 1, 2, 0, 2, 3, 0, 3, 4, 5, 6, 7,
    5, 7, 8, 5, 8, 9, 10, 11, 12, 10, 12, 13,
    10, 13, 14, 15, 16, 17, 15, 17, 18, 15, 18, 19,
    20, 21, 22, 20, 22, 23, 20, 23, 24, 25, 26, 27,
    25, 27, 28, 25, 28, 29, 30, 31, 32, 30, 32, 33,
    30, 33, 34, 35, 36, 37, 35, 37, 38, 35, 38, 39,
    40, 41, 42, 40, 42, 43, 40, 43, 44, 45, 46, 47,
    45, 47, 48, 45, 48, 49, 50, 51, 52, 50, 52, 53,
    50, 53, 54, 55, 56, 57, 55, 57, 58, 55, 58, 59,
    3, 14, 13, 3, 13, 9, 3, 9, 8, 3, 8, 4,
    2, 16, 15, 2, 15, 10, 2, 10, 14, 2, 14, 3,
    1, 22, 21, 1, 21, 17, 1, 17, 16, 1, 16, 2,
    0, 25, 29, 0, 29, 23, 0, 23, 22, 0, 22, 1,
    4, 8, 7, 4, 7, 26, 4, 26, 25, 4, 25, 0,
    7, 6, 32, 7, 32, 31, 7, 31, 27, 7, 27, 26,
    5, 35, 39, 5, 39, 33, 5, 33, 32, 5, 32, 6,
    13, 12, 36, 13, 36, 35, 13, 35, 5, 13, 5, 9,
    11, 42, 41, 11, 41, 37, 11, 37, 36, 11, 36, 12,
    15, 19, 43, 15, 43, 42, 15, 42, 11, 15, 11, 10,
    18, 49, 48, 18, 48, 44, 18, 44, 43, 18, 43, 19,
    21, 20, 45, 21, 45, 49, 21, 49, 18, 21, 18, 17,
    24, 53, 52, 24, 52, 46, 24, 46, 45, 24, 45, 20,
    29, 28, 54, 29, 54, 53, 29, 53, 24, 29, 24, 23,
    27, 31, 30, 27, 30, 50, 27, 50, 54, 27, 54, 28,
    30, 34, 58, 30, 58, 57, 30, 57, 51, 30, 51, 50,
    39, 38, 59, 39, 59, 58, 39, 58, 34, 39, 34, 33,
    41, 40, 55, 41, 55, 59, 41, 59, 38, 41, 38, 37,
    48, 47, 56, 48, 56, 55, 48, 55, 40, 48, 40, 44,
    52, 51, 57, 52, 57, 56, 52, 56, 47, 52, 47, 46,
];

/// Face planes of the truncated icosahedron: unit normals and offsets.
pub const C60_PLANES: [i32; 128] = [
    0, -5257, -8507, 15516, -8507, 0, -5257, 15516, -5257, -8507, 0, 15516,
    5257, -8507, 0, 15516, 8507, 0, -5257, 15516, 0, 5257, -8507, 15516,
    -5257, 8507, 0, 15516, -8507, 0, 5257, 15516, 0, -5257, 8507, 15516,
    8507, 0, 5257, 15516, 5257, 8507, 0, 15516, 0, 5257, 8507, 15516,
    -5774, -5774, -5774, 15115, 0, -9342, -3568, 15115, 5774, -5774, -5774, 15115,
    3568, 0, -9342, 15115, -3568, 0, -9342, 15115, -5774, 5774, -5774, 15115,
    -9342, 3568, 0, 15115, -9342, -3568, 0, 15115, -5774, -5774, 5774, 15115,
    0, -9342, 3568, 15115, 5774, -5774, 5774, 15115, 9342, -3568, 0, 15115,
    9342, 3568, 0, 15115, 5774, 5774, -5774, 15115, 0, 9342, -3568, 15115,
    0, 9342, 3568, 15115, -5774, 5774, 5774, 15115, -3568, 0, 9342, 15115,
    3568, 0, 9342, 15115, 5774, 5774, 5774, 15115,
];

/// Faces of the truncated icosahedron: twelve pentagons, then twenty hexagons.
pub const C60_POLYGONS: [u32; 212] = [
    5, 0, 1, 2, 3, 4, 5, 5, 6, 7, 8, 9,
    5, 10, 11, 12, 13, 14, 5, 15, 16, 17, 18, 19,
    5, 20, 21, 22, 23, 24, 5, 25, 26, 27, 28, 29,
    5, 30, 31, 32, 33, 34, 5, 35, 36, 37, 38, 39,
    5, 40, 41, 42, 43, 44, 5, 45, 46, 47, 48, 49,
    5, 50, 51, 52, 53, 54, 5, 55, 56, 57, 58, 59,
    6, 3, 14, 13, 9, 8, 4, 6, 2, 16, 15, 10,
    14, 3, 6, 1, 22, 21, 17, 16, 2, 6, 0, 25,
    29, 23, 22, 1, 6, 4, 8, 7, 26, 25, 0, 6,
    7, 6, 32, 31, 27, 26, 6, 5, 35, 39, 33, 32,
    6, 6, 13, 12, 36, 35, 5, 9, 6, 11, 42, 41,
    37, 36, 12, 6, 15, 19, 43, 42, 11, 10, 6, 18,
    49, 48, 44, 43, 19, 6, 21, 20, 45, 49, 18, 17,
    6, 24, 53, 52, 46, 45, 20, 6, 29, 28, 54, 53,
    24, 23, 6, 27, 31, 30, 50, 54, 28, 6, 30, 34,
    58, 57, 51, 50, 6, 39, 38, 59, 58, 34, 33, 6,
    41, 40, 55, 59, 38, 37, 6, 48, 47, 56, 55, 40,
    44, 6, 52, 51, 57, 56, 47, 46,
];

/// Vertices of the centred truncated icosahedron: those of the plain one, then
/// the centre of each face.
pub const C60_CENTER_VTX: [i32; 276] = [
    0, -3333, -16180, 5393, -6667, -14120, 3333, -12060, -10787, -3333, -12060, -10787,
    -5393, -6667, -14120, -16180, 0, -3333, -14120, 5393, -6667, -10787, 3333, -12060,
    -10787, -3333, -12060, -14120, -5393, -6667, -3333, -16180, 0, -6667, -14120, 5393,
    -12060, -10787, 3333, -12060, -10787, -3333, -6667, -14120, -5393, 3333, -16180, 0,
    6667, -14120, -5393, 12060, -10787, -3333, 12060, -10787, 3333, 6667, -14120, 5393,
    16180, 0, -3333, 14120, -5393, -6667, 10787, -3333, -12060, 10787, 3333, -12060,
    14120, 5393, -6667, 0, 3333, -16180, -5393, 6667, -14120, -3333, 12060, -10787,
    3333, 12060, -10787, 5393, 6667, -14120, -3333, 16180, 0, -6667, 14120, -5393,
    -12060, 10787, -3333, -12060, 10787, 3333, -6667, 14120, 5393, -16180, 0, 3333,
    -14120, -5393, 6667, -10787, -3333, 12060, -10787, 3333, 12060, -14120, 5393, 6667,
    0, -3333, 16180, -5393, -6667, 14120, -3333, -12060, 10787, 3333, -12060, 10787,
    5393, -6667, 14120, 16180, 0, 3333, 14120, 5393, 6667, 10787, 3333, 12060,
    10787, -3333, 12060, 14120, -5393, 6667, 3333, 16180, 0, 6667, 14120, 5393,
    12060, 10787, 3333, 12060, 10787, -3333, 6667, 14120, -5393, 0, 3333, 16180,
    5393, 6667, 14120, 3333, 12060, 10787, -3333, 12060, 10787, -5393, 6667, 14120,
    0, -8157, -13199, -13199, 0, -8157, -8157, -13199, 0, 8157, -13199, 0,
    13199, 0, -8157, 0, 8157, -13199, -8157, 13199, 0, -13199, 0, 8157,
    0, -8157, 13199, 13199, 0, 8157, 8157, 13199, 0, 0, 8157, 13199,
    -8727, -8727, -8727, 0, -14120, -5393, 8727, -8727, -8727, 5393, 0, -14120,
    -5393, 0, -14120, -8727, 8727, -8727, -14120, 5393, 0, -14120, -5393, 0,
    -8727, -8727, 8727, 0, -14120, 5393, 8727, -8727, 8727, 14120, -5393, 0,
    14120, 5393, 0, 8727, 8727, -8727, 0, 14120, -5393, 0, 14120, 5393,
    -8727, 8727, 8727, -5393, 0, 14120, 5393, 0, 14120, 8727, 8727, 8727,
];

/// Triangles of the centred truncated icosahedron: each face fanned from its
/// centre.
pub const C60_CENTER_INDICES: [u32; 540] = [
    60, 0, 1, 60, 1, 2, 60, 2, 3, 60, 3, 4,
    60, 4, 0, 61, 5, 6, 61, 6, 7, 61, 7, 8,
    61, 8, 9, 61, 9, 5, 62, 10, 11, 62, 11, 12,
    62, 12, 13, 62, 13, 14, 62, 14, 10, 63, 15, 16,
    63, 16, 17, 63, 17, 18, 63, 18, 19, 63, 19, 15,
    64, 20, 21, 64, 21, 22, 64, 22, 23, 64, 23, 24,
    64, 24, 20, 65, 25, 26, 65, 26, 27, 65, 27, 28,
    65, 28, 29, 65, 29, 25, 66, 30, 31, 66, 31, 32,
    66, 32, 33, 66, 33, 34, 66, 34, 30, 67, 35, 36,
    67, 36, 37, 67, 37, 38, 67, 38, 39, 67, 39, 35,
    68, 40, 41, 68, 41, 42, 68, 42, 43, 68, 43, 44,
    68, 44, 40, 69, 45, 46, 69, 46, 47, 69, 47, 48,
    69, 48, 49, 69, 49, 45, 70, 50, 51, 70, 51, 52,
    70, 52, 53, 70, 53, 54, 70, 54, 50, 71, 55, 56,
    71, 56, 57, 71, 57, 58, 71, 58, 59, 71, 59, 55,
    72, 3, 14, 72, 14, 13, 72, 13, 9, 72, 9, 8,
    72, 8, 4, 72, 4, 3, 73, 2, 16, 73, 16, 15,
    73, 15, 10, 73, 10, 14, 73, 14, 3, 73, 3, 2,
    74, 1, 22, 74, 22, 21, 74, 21, 17, 74, 17, 16,
    74, 16, 2, 74, 2, 1, 75, 0, 25, 75, 25, 29,
    75, 29, 23, 75, 23, 22, 75, 22, 1, 75, 1, 0,
    76, 4, 8, 76, 8, 7, 76, 7, 26, 76, 26, 25,
    76, 25, 0, 76, 0, 4, 77, 7, 6, 77, 6, 32,
    77, 32, 31, 77, 31, 27, 77, 27, 26, 77, 26, 7,
    78, 5, 35, 78, 35, 39, 78, 39, 33, 78, 33, 32,
    78, 32, 6, 78, 6, 5, 79, 13, 12, 79, 12, 36,
    79, 36, 35, 79, 35, 5, 79, 5, 9, 79, 9, 13,
    80, 11, 42, 80, 42, 41, 80, 41, 37, 80, 37, 36,
    80, 36, 12, 80, 12, 11, 81, 15, 19, 81, 19, 43,
    81, 43, 42, 81, 42, 11, 81, 11, 10, 81, 10, 15,
    82, 18, 49, 82, 49, 48, 82, 48, 44, 82, 44, 43,
    82, 43, 19, 82, 19, 18, 83, 21, 20, 83, 20, 45,
    83, 45, 49, 83, 49, 18, 83, 18, 17, 83, 17, 21,
    84, 24, 53, 84, 53, 52, 84, 52, 46, 84, 46, 45,
    84, 45, 20, 84, 20, 24, 85, 29, 28, 85, 28, 54,
    85, 54, 53, 85, 53, 24, 85, 24, 23, 85, 23, 29,
    86, 27, 31, 86, 31, 30, 86, 30, 50, 86, 50, 54,
    86, 54, 28, 86, 28, 27, 87, 30, 34, 87, 34, 58,
    87, 58, 57, 87, 57, 51, 87, 51, 50, 87, 50, 30,
    88, 39, 38, 88, 38, 59, 88, 59, 58, 88, 58, 34,
    88, 34, 33, 88, 33, 39, 89, 41, 40, 89, 40, 55,
    89, 55, 59, 89, 59, 38, 89, 38, 37, 89, 37, 41,
    90, 48, 47, 90, 47, 56, 90, 56, 55, 90, 55, 40,
    90, 40, 44, 90, 44, 48, 91, 52, 51, 91, 51, 57,
    91, 57, 56, 91, 56, 47, 91, 47, 46, 91, 46, 52,
];

/// Sums of the coordinates of the truncated icosahedron.
proof fn lemma_c60_sums()
    ensures
        axis_sum(C60_VTX@, 60, 0) == 0,
        axis_sum(C60_VTX@, 60, 1) == 0,
        axis_sum(C60_VTX@, 60, 2) == 0,
{
    let vtx = C60_VTX@;
    reveal_with_fuel(axis_sum, 5);
    assert(axis_sum(vtx, 4, 0) == 5393 && axis_sum(vtx, 4, 1) == -34120 && axis_sum(vtx, 4, 2) == -51874);
    assert(axis_sum(vtx, 8, 0) == -41087 && axis_sum(vtx, 8, 1) == -32061 && axis_sum(vtx, 8, 2) == -88054);
    assert(axis_sum(vtx, 12, 0) == -75994 && axis_sum(vtx, 12, 1) == -71087 && axis_sum(vtx, 12, 2) == -101388);
    assert(axis_sum(vtx, 16, 0) == -103448 && axis_sum(vtx, 16, 1) == -122961 && axis_sum(vtx, 16, 2) == -106781);
    assert(axis_sum(vtx, 20, 0) == -65994 && axis_sum(vtx, 20, 1) == -172775 && axis_sum(vtx, 20, 2) == -106781);
    assert(axis_sum(vtx, 24, 0) == -14120 && axis_sum(vtx, 24, 1) == -178168 && axis_sum(vtx, 24, 2) == -140901);
    assert(axis_sum(vtx, 28, 0) == -8726 && axis_sum(vtx, 28, 1) == -150715 && axis_sum(vtx, 28, 2) == -188655);
    assert(axis_sum(vtx, 32, 0) == -10000 && axis_sum(vtx, 32, 1) == -101688 && axis_sum(vtx, 32, 2) == -218955);
    assert(axis_sum(vtx, 36, 0) == -56967 && axis_sum(vtx, 36, 1) == -65994 && axis_sum(vtx, 36, 2) == -210229);
    assert(axis_sum(vtx, 40, 0) == -106781 && axis_sum(vtx, 40, 1) == -65994 && axis_sum(vtx, 40, 2) == -172775);
    assert(axis_sum(vtx, 44, 0) == -112174 && axis_sum(vtx, 44, 1) == -100114 && axis_sum(vtx, 44, 2) == -120901);
    assert(axis_sum(vtx, 48, 0) == -65694 && axis_sum(vtx, 48, 1) == -98055 && axis_sum(vtx, 48, 2) == -84721);
    assert(axis_sum(vtx, 52, 0) == -30787 && axis_sum(vtx, 52, 1) == -76481 && axis_sum(vtx, 52, 2) == -60601);
    assert(axis_sum(vtx, 56, 0) == 0 && axis_sum(vtx, 56, 1) == -37454 && axis_sum(vtx, 56, 2) == -49814);
    assert(axis_sum(vtx, 60, 0) == 0 && axis_sum(vtx, 60, 1) == 0 && axis_sum(vtx, 60, 2) == 0);
}

/// The faces of the truncated icosahedron, and where each starts.
proof fn lemma_c60_faces(count: int)
    requires
        count >= 60,
    ensures
        faces_ok(C60_POLYGONS@, 0, count),
        face_count(C60_POLYGONS@, 0) == 32,
        face_at(C60_POLYGONS@, 0, 0) == 0,
        face_at(C60_POLYGONS@, 0, 1) == 6,
        face_at(C60_POLYGONS@, 0, 2) == 12,
        face_at(C60_POLYGONS@, 0, 3) == 18,
        face_at(C60_POLYGONS@, 0, 4) == 24,
        face_at(C60_POLYGONS@, 0, 5) == 30,
        face_at(C60_POLYGONS@, 0, 6) == 36,
        face_at(C60_POLYGONS@, 0, 7) == 42,
        face_at(C60_POLYGONS@, 0, 8) == 48,
        face_at(C60_POLYGONS@, 0, 9) == 54,
        face_at(C60_POLYGONS@, 0, 10) == 60,
        face_at(C60_POLYGONS@, 0, 11) == 66,
        face_at(C60_POLYGONS@, 0, 12) == 72,
        face_at(C60_POLYGONS@, 0, 13) == 79,
        face_at(C60_POLYGONS@, 0, 14) == 86,
        face_at(C60_POLYGONS@, 0, 15) == 93,
        face_at(C60_POLYGONS@, 0, 16) == 100,
        face_at(C60_POLYGONS@, 0, 17) == 107,
        face_at(C60_POLYGONS@, 0, 18) == 114,
        face_at(C60_POLYGONS@, 0, 19) == 121,
        face_at(C60_POLYGONS@, 0, 20) == 128,
        face_at(C60_POLYGONS@, 0, 21) == 135,
        face_at(C60_POLYGONS@, 0, 22) == 142,
        face_at(C60_POLYGONS@, 0, 23) == 149,
        face_at(C60_POLYGONS@, 0, 24) == 156,
        face_at(C60_POLYGONS@, 0, 25) == 163,
        face_at(C60_POLYGONS@, 0, 26) == 170,
        face_at(C60_POLYGONS@, 0, 27) == 177,
        face_at(C60_POLYGONS@, 0, 28) == 184,
        face_at(C60_POLYGONS@, 0, 29) == 191,
        face_at(C60_POLYGONS@, 0, 30) == 198,
        face_at(C60_POLYGONS@, 0, 31) == 205,
{
    let polygons = C60_POLYGONS@;
    assert(face_count(polygons, 212) == 0);
    lemma_face_ok(polygons, 205, count);
    assert(face_count(polygons, 205) == 1);
    lemma_face_ok(polygons, 198, count);
    assert(face_count(polygons, 198) == 2);
    lemma_face_ok(polygons, 191, count);
    assert(face_count(polygons, 191) == 3);
    lemma_face_ok(polygons, 184, count);
    assert(face_count(polygons, 184) == 4);
    lemma_face_ok(polygons, 177, count);
    assert(face_count(polygons, 177) == 5);
    lemma_face_ok(polygons, 170, count);
    assert(face_count(polygons, 170) == 6);
    lemma_face_ok(polygons, 163, count);
    assert(face_count(polygons, 163) == 7);
    lemma_face_ok(polygons, 156, count);
    assert(face_count(polygons, 156) == 8);
    lemma_face_ok(polygons, 149, count);
    assert(face_count(polygons, 149) == 9);
    lemma_face_ok(polygons, 142, count);
    assert(face_count(polygons, 142) == 10);
    lemma_face_ok(polygons, 135, count);
    assert(face_count(polygons, 135) == 11);
    lemma_face_ok(polygons, 128, count);
    assert(face_count(polygons, 128) == 12);
    lemma_face_ok(polygons, 121, count);
    assert(face_count(polygons, 121) == 13);
    lemma_face_ok(polygons, 114, count);
    assert(face_count(polygons, 114) == 14);
    lemma_face_ok(polygons, 107, count);
    assert(face_count(polygons, 107) == 15);
    lemma_face_ok(polygons, 100, count);
    assert(face_count(polygons, 100) == 16);
    lemma_face_ok(polygons, 93, count);
    assert(face_count(polygons, 93) == 17);
    lemma_face_ok(polygons, 86, count);
    assert(face_count(polygons, 86) == 18);
    lemma_face_ok(polygons, 79, count);
    assert(face_count(polygons, 79) == 19);
    lemma_face_ok(polygons, 72, count);
    assert(face_count(polygons, 72) == 20);
    lemma_face_ok(polygons, 66, count);
    assert(face_count(polygons, 66) == 21);
    lemma_face_ok(polygons, 60, count);
    assert(face_count(polygons, 60) == 22);
    lemma_face_ok(polygons, 54, count);
    assert(face_count(polygons, 54) == 23);
    lemma_face_ok(polygons, 48, count);
    assert(face_count(polygons, 48) == 24);
    lemma_face_ok(polygons, 42, count);
    assert(face_count(polygons, 42) == 25);
    lemma_face_ok(polygons, 36, count);
    assert(face_count(polygons, 36) == 26);
    lemma_face_ok(polygons, 30, count);
    assert(face_count(polygons, 30) == 27);
    lemma_face_ok(polygons, 24, count);
    assert(face_count(polygons, 24) == 28);
    lemma_face_ok(polygons, 18, count);
    assert(face_count(polygons, 18) == 29);
    lemma_face_ok(polygons, 12, count);
    assert(face_count(polygons, 12) == 30);
    lemma_face_ok(polygons, 6, count);
    assert(face_count(polygons, 6) == 31);
    lemma_face_ok(polygons, 0, count);
    assert(face_count(polygons, 0) == 32);
    lemma_face_at_next(polygons, 0, 0);
    assert(face_at(polygons, 0, 1) == 6);
    lemma_face_at_next(polygons, 0, 1);
    assert(face_at(polygons, 0, 2) == 12);
    lemma_face_at_next(polygons, 0, 2);
    assert(face_at(polygons, 0, 3) == 18);
    lemma_face_at_next(polygons, 0, 3);
    assert(face_at(polygons, 0, 4) == 24);
    lemma_face_at_next(polygons, 0, 4);
    assert(face_at(polygons, 0, 5) == 30);
    lemma_face_at_next(polygons, 0, 5);
    assert(face_at(polygons, 0, 6) == 36);
    lemma_face_at_next(polygons, 0, 6);
    assert(face_at(polygons, 0, 7) == 42);
    lemma_face_at_next(polygons, 0, 7);
    assert(face_at(polygons, 0, 8) == 48);
    lemma_face_at_next(polygons, 0, 8);
    assert(face_at(polygons, 0, 9) == 54);
    lemma_face_at_next(polygons, 0, 9);
    assert(face_at(polygons, 0, 10) == 60);
    lemma_face_at_next(polygons, 0, 10);
    assert(face_at(polygons, 0, 11) == 66);
    lemma_face_at_next(polygons, 0, 11);
    assert(face_at(polygons, 0, 12) == 72);
    lemma_face_at_next(polygons, 0, 12);
    assert(face_at(polygons, 0, 13) == 79);
    lemma_face_at_next(polygons, 0, 13);
    assert(face_at(polygons, 0, 14) == 86);
    lemma_face_at_next(polygons, 0, 14);
    assert(face_at(polygons, 0, 15) == 93);
    lemma_face_at_next(polygons, 0, 15);
    assert(face_at(polygons, 0, 16) == 100);
    lemma_face_at_next(polygons, 0, 16);
    assert(face_at(polygons, 0, 17) == 107);
    lemma_face_at_next(polygons, 0, 17);
    assert(face_at(polygons, 0, 18) == 114);
    lemma_face_at_next(polygons, 0, 18);
    assert(face_at(polygons, 0, 19) == 121);
    lemma_face_at_next(polygons, 0, 19);
    assert(face_at(polygons, 0, 20) == 128);
    lemma_face_at_next(polygons, 0, 20);
    assert(face_at(polygons, 0, 21) == 135);
    lemma_face_at_next(polygons, 0, 21);
    assert(face_at(polygons, 0, 22) == 142);
    lemma_face_at_next(polygons, 0, 22);
    assert(face_at(polygons, 0, 23) == 149);
    lemma_face_at_next(polygons, 0, 23);
    assert(face_at(polygons, 0, 24) == 156);
    lemma_face_at_next(polygons, 0, 24);
    assert(face_at(polygons, 0, 25) == 163);
    lemma_face_at_next(polygons, 0, 25);
    assert(face_at(polygons, 0, 26) == 170);
    lemma_face_at_next(polygons, 0, 26);
    assert(face_at(polygons, 0, 27) == 177);
    lemma_face_at_next(polygons, 0, 27);
    assert(face_at(polygons, 0, 28) == 184);
    lemma_face_at_next(polygons, 0, 28);
    assert(face_at(polygons, 0, 29) == 191);
    lemma_face_at_next(polygons, 0, 29);
    assert(face_at(polygons, 0, 30) == 198);
    lemma_face_at_next(polygons, 0, 30);
    assert(face_at(polygons, 0, 31) == 205);
}

/// Triangles 0 to 15 of the truncated icosahedron lean outward.
proof fn lemma_c60_triangles_0(t: int)
    requires
        0 <= t < 16,
    ensures
        triangle_lean(C60_VTX@, C60_INDICES@, t) > 0,
{
    let vtx = C60_VTX@;
    lemma_c60_sums();
    assert(lean_at(0, -3333, -16180, 5393, -6667, -14120, 3333, -12060, -10787, 60, 0, 0, 0) > 0
        && lean_at(0, -3333, -16180, 3333, -12060, -10787, -3333, -12060, -10787, 60, 0, 0, 0) > 0
        && lean_at(0, -3333, -16180, -3333, -12060, -10787, -5393, -6667, -14120, 60, 0, 0, 0) > 0
        && lean_at(-16180, 0, -3333, -14120, 5393, -6667, -10787, 3333, -12060, 60, 0, 0, 0) > 0
        && lean_at(-16180, 0, -3333, -10787, 3333, -12060, -10787, -3333, -12060, 60, 0, 0, 0) > 0
        && lean_at(-16180, 0, -3333, -10787, -3333, -12060, -14120, -5393, -6667, 60, 0, 0, 0) > 0
        && lean_at(-3333, -16180, 0, -6667, -14120, 5393, -12060, -10787, 3333, 60, 0, 0, 0) > 0
        && lean_at(-3333, -16180, 0, -12060, -10787, 3333, -12060, -10787, -3333, 60, 0, 0, 0) > 0
        && lean_at(-3333, -16180, 0, -12060, -10787, -3333, -6667, -14120, -5393, 60, 0, 0, 0) > 0
        && lean_at(3333, -16180, 0, 6667, -14120, -5393, 12060, -10787, -3333, 60, 0, 0, 0) > 0
        && lean_at(3333, -16180, 0, 12060, -10787, -3333, 12060, -10787, 3333, 60, 0, 0, 0) > 0
        && lean_at(3333, -16180, 0, 12060, -10787, 3333, 6667, -14120, 5393, 60, 0, 0, 0) > 0
        && lean_at(16180, 0, -3333, 14120, -5393, -6667, 10787, -3333, -12060, 60, 0, 0, 0) > 0
        && lean_at(16180, 0, -3333, 10787, -3333, -12060, 10787, 3333, -12060, 60, 0, 0, 0) > 0
        && lean_at(16180, 0, -3333, 10787, 3333, -12060, 14120, 5393, -6667, 60, 0, 0, 0) > 0
        && lean_at(0, 3333, -16180, -5393, 6667, -14120, -3333, 12060, -10787, 60, 0, 0, 0) > 0) by (nonlinear_arith);
    if t == 0 {
        lemma_lean_at(vtx, 0, 1, 2);
    } else if t == 1 {
        lemma_lean_at(vtx, 0, 2, 3);
    } else if t == 2 {
        lemma_lean_at(vtx, 0, 3, 4);
    } else if t == 3 {
        lemma_lean_at(vtx, 5, 6, 7);
    } else if t == 4 {
        lemma_lean_at(vtx, 5, 7, 8);
    } else if t == 5 {
        lemma_lean_at(vtx, 5, 8, 9);
    } else if t == 6 {
        lemma_lean_at(vtx, 10, 11, 12);
    } else if t == 7 {
        lemma_lean_at(vtx, 10, 12, 13);
    } else if t == 8 {
        lemma_lean_at(vtx, 10, 13, 14);
    } else if t == 9 {
        lemma_lean_at(vtx, 15, 16, 17);
    } else if t == 10 {
        lemma_lean_at(vtx, 15, 17, 18);
    } else if t == 11 {
        lemma_lean_at(vtx, 15, 18, 19);
    } else if t == 12 {
        lemma_lean_at(vtx, 20, 21, 22);
    } else if t == 13 {
        lemma_lean_at(vtx, 20, 22, 23);
    } else if t == 14 {
        lemma_lean_at(vtx, 20, 23, 24);
    } else if t == 15 {
        lemma_lean_at(vtx, 25, 26, 27);
    }
}

/// Triangles 16 to 31 of the truncated icosahedron lean outward.
proof fn lemma_c60_triangles_16(t: int)
    requires
        16 <= t < 32,
    ensures
        triangle_lean(C60_VTX@, C60_INDICES@, t) > 0,
{
    let vtx = C60_VTX@;
    lemma_c60_sums();
    assert(lean_at(0, 3333, -16180, -3333, 12060, -10787, 3333, 12060, -10787, 60, 0, 0, 0) > 0
        && lean_at(0, 3333, -16180, 3333, 12060, -10787, 5393, 6667, -14120, 60, 0, 0, 0) > 0
        && lean_at(-3333, 16180, 0, -6667, 14120, -5393, -12060, 10787, -3333, 60, 0, 0, 0) > 0
        && lean_at(-3333, 16180, 0, -12060, 10787, -3333, -12060, 10787, 3333, 60, 0, 0, 0) > 0
        && lean_at(-3333, 16180, 0, -12060, 10787, 3333, -6667, 14120, 5393, 60, 0, 0, 0) > 0
        && lean_at(-16180, 0, 3333, -14120, -5393, 6667, -10787, -3333, 12060, 60, 0, 0, 0) > 0
        && lean_at(-16180, 0, 3333, -10787, -3333, 12060, -10787, 3333, 12060, 60, 0, 0, 0) > 0
        && lean_at(-16180, 0, 3333, -10787, 3333, 12060, -14120, 5393, 6667, 60, 0, 0, 0) > 0
        && lean_at(0, -3333, 16180, -5393, -6667, 14120, -3333, -12060, 10787, 60, 0, 0, 0) > 0
        && lean_at(0, -3333, 16180, -3333, -12060, 10787, 3333, -12060, 10787, 60, 0, 0, 0) > 0
        && lean_at(0, -3333, 16180, 3333, -12060, 10787, 5393, -6667, 14120, 60, 0, 0, 0) > 0
        && lean_at(16180, 0, 3333, 14120, 5393, 6667, 10787, 3333, 12060, 60, 0, 0, 0) > 0
        && lean_at(16180, 0, 3333, 10787, 3333, 12060, 10787, -3333, 12060, 60, 0, 0, 0) > 0
        && lean_at(16180, 0, 3333, 10787, -3333, 12060, 14120, -5393, 6667, 60, 0, 0, 0) > 0
        && lean_at(3333, 16180, 0, 6667, 14120, 5393, 12060, 10787, 3333, 60, 0, 0, 0) > 0
        && lean_at(3333, 16180, 0, 12060, 10787, 3333, 12060, 10787, -3333, 60, 0, 0, 0) > 0) by (nonlinear_arith);
    if t == 16 {
        lemma_lean_at(vtx, 25, 27, 28);
    } else if t == 17 {
        lemma_lean_at(vtx, 25, 28, 29);
    } else if t == 18 {
        lemma_lean_at(vtx, 30, 31, 32);
    } else if t == 19 {
        lemma_lean_at(vtx, 30, 32, 33);
    } else if t == 20 {
        lemma_lean_at(vtx, 30, 33, 34);
    } else if t == 21 {
        lemma_lean_at(vtx, 35, 36, 37);
    } else if t == 22 {
        lemma_lean_at(vtx, 35, 37, 38);
    } else if t == 23 {
        lemma_lean_at(vtx, 35, 38, 39);
    } else if t == 24 {
        lemma_lean_at(vtx, 40, 41, 42);
    } else if t == 25 {
        lemma_lean_at(vtx, 40, 42, 43);
    } else if t == 26 {
        lemma_lean_at(vtx, 40, 43, 44);
    } else if t == 27 {
        lemma_lean_at(vtx, 45, 46, 47);
    } else if t == 28 {
        lemma_lean_at(vtx, 45, 47, 48);
    } else if t == 29 {
        lemma_lean_at(vtx, 45, 48, 49);
    } else if t == 30 {
        lemma_lean_at(vtx, 50, 51, 52);
    } else if t == 31 {
        lemma_lean_at(vtx, 50, 52, 53);
    }
}

/// Triangles 32 to 47 of the truncated icosahedron lean outward.
proof fn lemma_c60_triangles_32(t: int)
    requires
        32 <= t < 48,
    ensures
        triangle_lean(C60_VTX@, C60_INDICES@, t) > 0,
{
    let vtx = C60_VTX@;
    lemma_c60_sums();
    assert(lean_at(3333, 16180, 0, 12060, 10787, -3333, 6667, 14120, -5393, 60, 0, 0, 0) > 0
        && lean_at(0, 3333, 16180, 5393, 6667, 14120, 3333, 12060, 10787, 60, 0, 0, 0) > 0
        && lean_at(0, 3333, 16180, 3333, 12060, 10787, -3333, 12060, 10787, 60, 0, 0, 0) > 0
        && lean_at(0, 3333, 16180, -3333, 12060, 10787, -5393, 6667, 14120, 60, 0, 0, 0) > 0
        && lean_at(-3333, -12060, -10787, -6667, -14120, -5393, -12060, -10787, -3333, 60, 0, 0, 0) > 0
        && lean_at(-3333, -12060, -10787, -12060, -10787, -3333, -14120, -5393, -6667, 60, 0, 0, 0) > 0
        && lean_at(-3333, -12060, -10787, -14120, -5393, -6667, -10787, -3333, -12060, 60, 0, 0, 0) > 0
        && lean_at(-3333, -12060, -10787, -10787, -3333, -12060, -5393, -6667, -14120, 60, 0, 0, 0) > 0
        && lean_at(3333, -12060, -10787, 6667, -14120, -5393, 3333, -16180, 0, 60, 0, 0, 0) > 0
        && lean_at(3333, -12060, -10787, 3333, -16180, 0, -3333, -16180, 0, 60, 0, 0, 0) > 0
        && lean_at(3333, -12060, -10787, -3333, -16180, 0, -6667, -14120, -5393, 60, 0, 0, 0) > 0
        && lean_at(3333, -12060, -10787, -6667, -14120, -5393, -3333, -12060, -10787, 60, 0, 0, 0) > 0
        && lean_at(5393, -6667, -14120, 10787, -3333, -12060, 14120, -5393, -6667, 60, 0, 0, 0) > 0
        && lean_at(5393, -6667, -14120, 14120, -5393, -6667, 12060, -10787, -3333, 60, 0, 0, 0) > 0
        && lean_at(5393, -6667, -14120, 12060, -10787, -3333, 6667, -14120, -5393, 60, 0, 0, 0) > 0
        && lean_at(5393, -6667, -14120, 6667, -14120, -5393, 3333, -12060, -10787, 60, 0, 0, 0) > 0) by (nonlinear_arith);
    if t == 32 {
        lemma_lean_at(vtx, 50, 53, 54);
    } else if t == 33 {
        lemma_lean_at(vtx, 55, 56, 57);
    } else if t == 34 {
        lemma_lean_at(vtx, 55, 57, 58);
    } else if t == 35 {
        lemma_lean_at(vtx, 55, 58, 59);
    } else if t == 36 {
        lemma_lean_at(vtx, 3, 14, 13);
    } else if t == 37 {
        lemma_lean_at(vtx, 3, 13, 9);
    } else if t == 38 {
        lemma_lean_at(vtx, 3, 9, 8);
    } else if t == 39 {
        lemma_lean_at(vtx, 3, 8, 4);
    } else if t == 40 {
        lemma_lean_at(vtx, 2, 16, 15);
    } else if t == 41 {
        lemma_lean_at(vtx, 2, 15, 10);
    } else if t == 42 {
        lemma_lean_at(vtx, 2, 10, 14);
    } else if t == 43 {
        lemma_lean_at(vtx, 2, 14, 3);
    } else if t == 44 {
        lemma_lean_at(vtx, 1, 22, 21);
    } else if t == 45 {
        lemma_lean_at(vtx, 1, 21, 17);
    } else if t == 46 {
        lemma_lean_at(vtx, 1, 17, 16);
    } else if t == 47 {
        lemma_lean_at(vtx, 1, 16, 2);
    }
}

/// Triangles 48 to 63 of the truncated icosahedron lean outward.
proof fn lemma_c60_triangles_48(t: int)
    requires
        48 <= t < 64,
    ensures
        triangle_lean(C60_VTX@, C60_INDICES@, t) > 0,
{
    let vtx = C60_VTX@;
    lemma_c60_sums();
    assert(lean_at(0, -3333, -16180, 0, 3333, -16180, 5393, 6667, -14120, 60, 0, 0, 0) > 0
        && lean_at(0, -3333, -16180, 5393, 6667, -14120, 10787, 3333, -12060, 60, 0, 0, 0) > 0
        && lean_at(0, -3333, -16180, 10787, 3333, -12060, 10787, -3333, -12060, 60, 0, 0, 0) > 0
        && lean_at(0, -3333, -16180, 10787, -3333, -12060, 5393, -6667, -14120, 60, 0, 0, 0) > 0
        && lean_at(-5393, -6667, -14120, -10787, -3333, -12060, -10787, 3333, -12060, 60, 0, 0, 0) > 0
        && lean_at(-5393, -6667, -14120, -10787, 3333, -12060, -5393, 6667, -14120, 60, 0, 0, 0) > 0
        && lean_at(-5393, -6667, -14120, -5393, 6667, -14120, 0, 3333, -16180, 60, 0, 0, 0) > 0
        && lean_at(-5393, -6667, -14120, 0, 3333, -16180, 0, -3333, -16180, 60, 0, 0, 0) > 0
        && lean_at(-10787, 3333, -12060, -14120, 5393, -6667, -12060, 10787, -3333, 60, 0, 0, 0) > 0
        && lean_at(-10787, 3333, -12060, -12060, 10787, -3333, -6667, 14120, -5393, 60, 0, 0, 0) > 0
        && lean_at(-10787, 3333, -12060, -6667, 14120, -5393, -3333, 12060, -10787, 60, 0, 0, 0) > 0
        && lean_at(-10787, 3333, -12060, -3333, 12060, -10787, -5393, 6667, -14120, 60, 0, 0, 0) > 0
        && lean_at(-16180, 0, -3333, -16180, 0, 3333, -14120, 5393, 6667, 60, 0, 0, 0) > 0
        && lean_at(-16180, 0, -3333, -14120, 5393, 6667, -12060, 10787, 3333, 60, 0, 0, 0) > 0
        && lean_at(-16180, 0, -3333, -12060, 10787, 3333, -12060, 10787, -3333, 60, 0, 0, 0) > 0
        && lean_at(-16180, 0, -3333, -12060, 10787, -3333, -14120, 5393, -6667, 60, 0, 0, 0) > 0) by (nonlinear_arith);
    if t == 48 {
        lemma_lean_at(vtx, 0, 25, 29);
    } else if t == 49 {
        lemma_lean_at(vtx, 0, 29, 23);
    } else if t == 50 {
        lemma_lean_at(vtx, 0, 23, 22);
    } else if t == 51 {
        lemma_lean_at(vtx, 0, 22, 1);
    } else if t == 52 {
        lemma_lean_at(vtx, 4, 8, 7);
    } else if t == 53 {
        lemma_lean_at(vtx, 4, 7, 26);
    } else if t == 54 {
        lemma_lean_at(vtx, 4, 26, 25);
    } else if t == 55 {
        lemma_lean_at(vtx, 4, 25, 0);
    } else if t == 56 {
        lemma_lean_at(vtx, 7, 6, 32);
    } else if t == 57 {
        lemma_lean_at(vtx, 7, 32, 31);
    } else if t == 58 {
        lemma_lean_at(vtx, 7, 31, 27);
    } else if t == 59 {
        lemma_lean_at(vtx, 7, 27, 26);
    } else if t == 60 {
        lemma_lean_at(vtx, 5, 35, 39);
    } else if t == 61 {
        lemma_lean_at(vtx, 5, 39, 33);
    } else if t == 62 {
        lemma_lean_at(vtx, 5, 33, 32);
    } else if t == 63 {
        lemma_lean_at(vtx, 5, 32, 6);
    }
}

/// Triangles 64 to 79 of the truncated icosahedron lean outward.
proof fn lemma_c60_triangles_64(t: int)
    requires
        64 <= t < 80,
    ensures
        triangle_lean(C60_VTX@, C60_INDICES@, t) > 0,
{
    let vtx = C60_VTX@;
    lemma_c60_sums();
    assert(lean_at(-12060, -10787, -3333, -12060, -10787, 3333, -14120, -5393, 6667, 60, 0, 0, 0) > 0
        && lean_at(-12060, -10787, -3333, -14120, -5393, 6667, -16180, 0, 3333, 60, 0, 0, 0) > 0
        && lean_at(-12060, -10787, -3333, -16180, 0, 3333, -16180, 0, -3333, 60, 0, 0, 0) > 0
        && lean_at(-12060, -10787, -3333, -16180, 0, -3333, -14120, -5393, -6667, 60, 0, 0, 0) > 0
        && lean_at(-6667, -14120, 5393, -3333, -12060, 10787, -5393, -6667, 14120, 60, 0, 0, 0) > 0
        && lean_at(-6667, -14120, 5393, -5393, -6667, 14120, -10787, -3333, 12060, 60, 0, 0, 0) > 0
        && lean_at(-6667, -14120, 5393, -10787, -3333, 12060, -14120, -5393, 6667, 60, 0, 0, 0) > 0
        && lean_at(-6667, -14120, 5393, -14120, -5393, 6667, -12060, -10787, 3333, 60, 0, 0, 0) > 0
        && lean_at(3333, -16180, 0, 6667, -14120, 5393, 3333, -12060, 10787, 60, 0, 0, 0) > 0
        && lean_at(3333, -16180, 0, 3333, -12060, 10787, -3333, -12060, 10787, 60, 0, 0, 0) > 0
        && lean_at(3333, -16180, 0, -3333, -12060, 10787, -6667, -14120, 5393, 60, 0, 0, 0) > 0
        && lean_at(3333, -16180, 0, -6667, -14120, 5393, -3333, -16180, 0, 60, 0, 0, 0) > 0
        && lean_at(12060, -10787, 3333, 14120, -5393, 6667, 10787, -3333, 12060, 60, 0, 0, 0) > 0
        && lean_at(12060, -10787, 3333, 10787, -3333, 12060, 5393, -6667, 14120, 60, 0, 0, 0) > 0
        && lean_at(12060, -10787, 3333, 5393, -6667, 14120, 3333, -12060, 10787, 60, 0, 0, 0) > 0
        && lean_at(12060, -10787, 3333, 3333, -12060, 10787, 6667, -14120, 5393, 60, 0, 0, 0) > 0) by (nonlinear_arith);
    if t == 64 {
        lemma_lean_at(vtx, 13, 12, 36);
    } else if t == 65 {
        lemma_lean_at(vtx, 13, 36, 35);
    } else if t == 66 {
        lemma_lean_at(vtx, 13, 35, 5);
    } else if t == 67 {
        lemma_lean_at(vtx, 13, 5, 9);
    } else if t == 68 {
        lemma_lean_at(vtx, 11, 42, 41);
    } else if t == 69 {
        lemma_lean_at(vtx, 11, 41, 37);
    } else if t == 70 {
        lemma_lean_at(vtx, 11, 37, 36);
    } else if t == 71 {
        lemma_lean_at(vtx, 11, 36, 12);
    } else if t == 72 {
        lemma_lean_at(vtx, 15, 19, 43);
    } else if t == 73 {
        lemma_lean_at(vtx, 15, 43, 42);
    } else if t == 74 {
        lemma_lean_at(vtx, 15, 42, 11);
    } else if t == 75 {
        lemma_lean_at(vtx, 15, 11, 10);
    } else if t == 76 {
        lemma_lean_at(vtx, 18, 49, 48);
    } else if t == 77 {
        lemma_lean_at(vtx, 18, 48, 44);
    } else if t == 78 {
        lemma_lean_at(vtx, 18, 44, 43);
    } else if t == 79 {
        lemma_lean_at(vtx, 18, 43, 19);
    }
}

/// Triangles 80 to 95 of the truncated icosahedron lean outward.
proof fn lemma_c60_triangles_80(t: int)
    requires
        80 <= t < 96,
    ensures
        triangle_lean(C60_VTX@, C60_INDICES@, t) > 0,
{
    let vtx = C60_VTX@;
    lemma_c60_sums();
    assert(lean_at(14120, -5393, -6667, 16180, 0, -3333, 16180, 0, 3333, 60, 0, 0, 0) > 0
        && lean_at(14120, -5393, -6667, 16180, 0, 3333, 14120, -5393, 6667, 60, 0, 0, 0) > 0
        && lean_at(14120, -5393, -6667, 14120, -5393, 6667, 12060, -10787, 3333, 60, 0, 0, 0) > 0
        && lean_at(14120, -5393, -6667, 12060, -10787, 3333, 12060, -10787, -3333, 60, 0, 0, 0) > 0
        && lean_at(14120, 5393, -6667, 12060, 10787, -3333, 12060, 10787, 3333, 60, 0, 0, 0) > 0
        && lean_at(14120, 5393, -6667, 12060, 10787, 3333, 14120, 5393, 6667, 60, 0, 0, 0) > 0
        && lean_at(14120, 5393, -6667, 14120, 5393, 6667, 16180, 0, 3333, 60, 0, 0, 0) > 0
        && lean_at(14120, 5393, -6667, 16180, 0, 3333, 16180, 0, -3333, 60, 0, 0, 0) > 0
        && lean_at(5393, 6667, -14120, 3333, 12060, -10787, 6667, 14120, -5393, 60, 0, 0, 0) > 0
        && lean_at(5393, 6667, -14120, 6667, 14120, -5393, 12060, 10787, -3333, 60, 0, 0, 0) > 0
        && lean_at(5393, 6667, -14120, 12060, 10787, -3333, 14120, 5393, -6667, 60, 0, 0, 0) > 0
        && lean_at(5393, 6667, -14120, 14120, 5393, -6667, 10787, 3333, -12060, 60, 0, 0, 0) > 0
        && lean_at(-3333, 12060, -10787, -6667, 14120, -5393, -3333, 16180, 0, 60, 0, 0, 0) > 0
        && lean_at(-3333, 12060, -10787, -3333, 16180, 0, 3333, 16180, 0, 60, 0, 0, 0) > 0
        && lean_at(-3333, 12060, -10787, 3333, 16180, 0, 6667, 14120, -5393, 60, 0, 0, 0) > 0
        && lean_at(-3333, 12060, -10787, 6667, 14120, -5393, 3333, 12060, -10787, 60, 0, 0, 0) > 0) by (nonlinear_arith);
    if t == 80 {
        lemma_lean_at(vtx, 21, 20, 45);
    } else if t == 81 {
        lemma_lean_at(vtx, 21, 45, 49);
    } else if t == 82 {
        lemma_lean_at(vtx, 21, 49, 18);
    } else if t == 83 {
        lemma_lean_at(vtx, 21, 18, 17);
    } else if t == 84 {
        lemma_lean_at(vtx, 24, 53, 52);
    } else if t == 85 {
        lemma_lean_at(vtx, 24, 52, 46);
    } else if t == 86 {
        lemma_lean_at(vtx, 24, 46, 45);
    } else if t == 87 {
        lemma_lean_at(vtx, 24, 45, 20);
    } else if t == 88 {
        lemma_lean_at(vtx, 29, 28, 54);
    } else if t == 89 {
        lemma_lean_at(vtx, 29, 54, 53);
    } else if t == 90 {
        lemma_lean_at(vtx, 29, 53, 24);
    } else if t == 91 {
        lemma_lean_at(vtx, 29, 24, 23);
    } else if t == 92 {
        lemma_lean_at(vtx, 27, 31, 30);
    } else if t == 93 {
        lemma_lean_at(vtx, 27, 30, 50);
    } else if t == 94 {
        lemma_lean_at(vtx, 27, 50, 54);
    } else if t == 95 {
        lemma_lean_at(vtx, 27, 54, 28);
    }
}

/// Triangles 96 to 111 of the truncated icosahedron lean outward.
proof fn lemma_c60_triangles_96(t: int)
    requires
        96 <= t < 112,
    ensures
        triangle_lean(C60_VTX@, C60_INDICES@, t) > 0,
{
    let vtx = C60_VTX@;
    lemma_c60_sums();
    assert(lean_at(-3333, 16180, 0, -6667, 14120, 5393, -3333, 12060, 10787, 60, 0, 0, 0) > 0
        && lean_at(-3333, 16180, 0, -3333, 12060, 10787, 3333, 12060, 10787, 60, 0, 0, 0) > 0
        && lean_at(-3333, 16180, 0, 3333, 12060, 10787, 6667, 14120, 5393, 60, 0, 0, 0) > 0
        && lean_at(-3333, 16180, 0, 6667, 14120, 5393, 3333, 16180, 0, 60, 0, 0, 0) > 0
        && lean_at(-14120, 5393, 6667, -10787, 3333, 12060, -5393, 6667, 14120, 60, 0, 0, 0) > 0
        && lean_at(-14120, 5393, 6667, -5393, 6667, 14120, -3333, 12060, 10787, 60, 0, 0, 0) > 0
        && lean_at(-14120, 5393, 6667, -3333, 12060, 10787, -6667, 14120, 5393, 60, 0, 0, 0) > 0
        && lean_at(-14120, 5393, 6667, -6667, 14120, 5393, -12060, 10787, 3333, 60, 0, 0, 0) > 0
        && lean_at(-5393, -6667, 14120, 0, -3333, 16180, 0, 3333, 16180, 60, 0, 0, 0) > 0
        && lean_at(-5393, -6667, 14120, 0, 3333, 16180, -5393, 6667, 14120, 60, 0, 0, 0) > 0
        && lean_at(-5393, -6667, 14120, -5393, 6667, 14120, -10787, 3333, 12060, 60, 0, 0, 0) > 0
        && lean_at(-5393, -6667, 14120, -10787, 3333, 12060, -10787, -3333, 12060, 60, 0, 0, 0) > 0
        && lean_at(10787, -3333, 12060, 10787, 3333, 12060, 5393, 6667, 14120, 60, 0, 0, 0) > 0
        && lean_at(10787, -3333, 12060, 5393, 6667, 14120, 0, 3333, 16180, 60, 0, 0, 0) > 0
        && lean_at(10787, -3333, 12060, 0, 3333, 16180, 0, -3333, 16180, 60, 0, 0, 0) > 0
        && lean_at(10787, -3333, 12060, 0, -3333, 16180, 5393, -6667, 14120, 60, 0, 0, 0) > 0) by (nonlinear_arith);
    if t == 96 {
        lemma_lean_at(vtx, 30, 34, 58);
    } else if t == 97 {
        lemma_lean_at(vtx, 30, 58, 57);
    } else if t == 98 {
        lemma_lean_at(vtx, 30, 57, 51);
    } else if t == 99 {
        lemma_lean_at(vtx, 30, 51, 50);
    } else if t == 100 {
        lemma_lean_at(vtx, 39, 38, 59);
    } else if t == 101 {
        lemma_lean_at(vtx, 39, 59, 58);
    } else if t == 102 {
        lemma_lean_at(vtx, 39, 58, 34);
    } else if t == 103 {
        lemma_lean_at(vtx, 39, 34, 33);
    } else if t == 104 {
        lemma_lean_at(vtx, 41, 40, 55);
    } else if t == 105 {
        lemma_lean_at(vtx, 41, 55, 59);
    } else if t == 106 {
        lemma_lean_at(vtx, 41, 59, 38);
    } else if t == 107 {
        lemma_lean_at(vtx, 41, 38, 37);
    } else if t == 108 {
        lemma_lean_at(vtx, 48, 47, 56);
    } else if t == 109 {
        lemma_lean_at(vtx, 48, 56, 55);
    } else if t == 110 {
        lemma_lean_at(vtx, 48, 55, 40);
    } else if t == 111 {
        lemma_lean_at(vtx, 48, 40, 44);
    }
}

/// Triangles 112 to 115 of the truncated icosahedron lean outward.
proof fn lemma_c60_triangles_112(t: int)
    requires
        112 <= t < 116,
    ensures
        triangle_lean(C60_VTX@, C60_INDICES@, t) > 0,
{
    let vtx = C60_VTX@;
    lemma_c60_sums();
    assert(lean_at(12060, 10787, 3333, 6667, 14120, 5393, 3333, 12060, 10787, 60, 0, 0, 0) > 0
        && lean_at(12060, 10787, 3333, 3333, 12060, 10787, 5393, 6667, 14120, 60, 0, 0, 0) > 0
        && lean_at(12060, 10787, 3333, 5393, 6667, 14120, 10787, 3333, 12060, 60, 0, 0, 0) > 0
        && lean_at(12060, 10787, 3333, 10787, 3333, 12060, 14120, 5393, 6667, 60, 0, 0, 0) > 0) by (nonlinear_arith);
    if t == 112 {
        lemma_lean_at(vtx, 52, 51, 57);
    } else if t == 113 {
        lemma_lean_at(vtx, 52, 57, 56);
    } else if t == 114 {
        lemma_lean_at(vtx, 52, 56, 47);
    } else if t == 115 {
        lemma_lean_at(vtx, 52, 47, 46);
    }
}

/// Planes 0 to 15 of the truncated icosahedron look outward.
proof fn lemma_c60_planes_0(f: int)
    requires
        0 <= f < 16,
    ensures
        plane_away(C60_VTX@, C60_POLYGONS@, C60_PLANES@, f) > 0,
{
    let vtx = C60_VTX@;
    lemma_c60_sums();
    lemma_c60_faces(60);
    assert(away_at(0, -3333, -16180, 0, -5257, -8507, 60, 0, 0, 0) > 0
        && away_at(-16180, 0, -3333, -8507, 0, -5257, 60, 0, 0, 0) > 0
        && away_at(-3333, -16180, 0, -5257, -8507, 0, 60, 0, 0, 0) > 0
        && away_at(3333, -16180, 0, 5257, -8507, 0, 60, 0, 0, 0) > 0
        && away_at(16180, 0, -3333, 8507, 0, -5257, 60, 0, 0, 0) > 0
        && away_at(0, 3333, -16180, 0, 5257, -8507, 60, 0, 0, 0) > 0
        && away_at(-3333, 16180, 0, -5257, 8507, 0, 60, 0, 0, 0) > 0
        && away_at(-16180, 0, 3333, -8507, 0, 5257, 60, 0, 0, 0) > 0
        && away_at(0, -3333, 16180, 0, -5257, 8507, 60, 0, 0, 0) > 0
        && away_at(16180, 0, 3333, 8507, 0, 5257, 60, 0, 0, 0) > 0
        && away_at(3333, 16180, 0, 5257, 8507, 0, 60, 0, 0, 0) > 0
        && away_at(0, 3333, 16180, 0, 5257, 8507, 60, 0, 0, 0) > 0
        && away_at(-3333, -12060, -10787, -5774, -5774, -5774, 60, 0, 0, 0) > 0
        && away_at(3333, -12060, -10787, 0, -9342, -3568, 60, 0, 0, 0) > 0
        && away_at(5393, -6667, -14120, 5774, -5774, -5774, 60, 0, 0, 0) > 0
        && away_at(0, -3333, -16180, 3568, 0, -9342, 60, 0, 0, 0) > 0) by (nonlinear_arith);
    if f == 0 {
        lemma_away_at(vtx, 0, 0, -5257, -8507);
    } else if f == 1 {
        lemma_away_at(vtx, 5, -8507, 0, -5257);
    } else if f == 2 {
        lemma_away_at(vtx, 10, -5257, -8507, 0);
    } else if f == 3 {
        lemma_away_at(vtx, 15, 5257, -8507, 0);
    } else if f == 4 {
        lemma_away_at(vtx, 20, 8507, 0, -5257);
    } else if f == 5 {
        lemma_away_at(vtx, 25, 0, 5257, -8507);
    } else if f == 6 {
        lemma_away_at(vtx, 30, -5257, 8507, 0);
    } else if f == 7 {
        lemma_away_at(vtx, 35, -8507, 0, 5257);
    } else if f == 8 {
        lemma_away_at(vtx, 40, 0, -5257, 8507);
    } else if f == 9 {
        lemma_away_at(vtx, 45, 8507, 0, 5257);
    } else if f == 10 {
        lemma_away_at(vtx, 50, 5257, 8507, 0);
    } else if f == 11 {
        lemma_away_at(vtx, 55, 0, 5257, 8507);
    } else if f == 12 {
        lemma_away_at(vtx, 3, -5774, -5774, -5774);
    } else if f == 13 {
        lemma_away_at(vtx, 2, 0, -9342, -3568);
    } else if f == 14 {
        lemma_away_at(vtx, 1, 5774, -5774, -5774);
    } else if f == 15 {
        lemma_away_at(vtx, 0, 3568, 0, -9342);
    }
}

/// Planes 16 to 31 of the truncated icosahedron look outward.
proof fn lemma_c60_planes_16(f: int)
    requires
        16 <= f < 32,
    ensures
        plane_away(C60_VTX@, C60_POLYGONS@, C60_PLANES@, f) > 0,
{
    let vtx = C60_VTX@;
    lemma_c60_sums();
    lemma_c60_faces(60);
    assert(away_at(-5393, -6667, -14120, -3568, 0, -9342, 60, 0, 0, 0) > 0
        && away_at(-10787, 3333, -12060, -5774, 5774, -5774, 60, 0, 0, 0) > 0
        && away_at(-16180, 0, -3333, -9342, 3568, 0, 60, 0, 0, 0) > 0
        && away_at(-12060, -10787, -3333, -9342, -3568, 0, 60, 0, 0, 0) > 0
        && away_at(-6667, -14120, 5393, -5774, -5774, 5774, 60, 0, 0, 0) > 0
        && away_at(3333, -16180, 0, 0, -9342, 3568, 60, 0, 0, 0) > 0
        && away_at(12060, -10787, 3333, 5774, -5774, 5774, 60, 0, 0, 0) > 0
        && away_at(14120, -5393, -6667, 9342, -3568, 0, 60, 0, 0, 0) > 0
        && away_at(14120, 5393, -6667, 9342, 3568, 0, 60, 0, 0, 0) > 0
        && away_at(5393, 6667, -14120, 5774, 5774, -5774, 60, 0, 0, 0) > 0
        && away_at(-3333, 12060, -10787, 0, 9342, -3568, 60, 0, 0, 0) > 0
        && away_at(-3333, 16180, 0, 0, 9342, 3568, 60, 0, 0, 0) > 0
        && away_at(-14120, 5393, 6667, -5774, 5774, 5774, 60, 0, 0, 0) > 0
        && away_at(-5393, -6667, 14120, -3568, 0, 9342, 60, 0, 0, 0) > 0
        && away_at(10787, -3333, 12060, 3568, 0, 9342, 60, 0, 0, 0) > 0
        && away_at(12060, 10787, 3333, 5774, 5774, 5774, 60, 0, 0, 0) > 0) by (nonlinear_arith);
    if f == 16 {
        lemma_away_at(vtx, 4, -3568, 0, -9342);
    } else if f == 17 {
        lemma_away_at(vtx, 7, -5774, 5774, -5774);
    } else if f == 18 {
        lemma_away_at(vtx, 5, -9342, 3568, 0);
    } else if f == 19 {
        lemma_away_at(vtx, 13, -9342, -3568, 0);
    } else if f == 20 {
        lemma_away_at(vtx, 11, -5774, -5774, 5774);
    } else if f == 21 {
        lemma_away_at(vtx, 15, 0, -9342, 3568);
    } else if f == 22 {
        lemma_away_at(vtx, 18, 5774, -5774, 5774);
    } else if f == 23 {
        lemma_away_at(vtx, 21, 9342, -3568, 0);
    } else if f == 24 {
        lemma_away_at(vtx, 24, 9342, 3568, 0);
    } else if f == 25 {
        lemma_away_at(vtx, 29, 5774, 5774, -5774);
    } else if f == 26 {
        lemma_away_at(vtx, 27, 0, 9342, -3568);
    } else if f == 27 {
        lemma_away_at(vtx, 30, 0, 9342, 3568);
    } else if f == 28 {
        lemma_away_at(vtx, 39, -5774, 5774, 5774);
    } else if f == 29 {
        lemma_away_at(vtx, 41, -3568, 0, 9342);
    } else if f == 30 {
        lemma_away_at(vtx, 48, 3568, 0, 9342);
    } else if f == 31 {
        lemma_away_at(vtx, 52, 5774, 5774, 5774);
    }
}

/// The table of the truncated icosahedron is the descriptor of a solid whose faces look
/// outward.
pub proof fn lemma_c60_table()
    ensures
        buffers_valid(C60_VTX@, C60_INDICES@, C60_PLANES@, C60_POLYGONS@),
{
    let vtx = C60_VTX@;
    let indices = C60_INDICES@;
    let planes = C60_PLANES@;
    let polygons = C60_POLYGONS@;
    lemma_c60_faces(60);
    assert(coord(vtx, 1, 0) != coord(vtx, 0, 0));
    assert(coord(vtx, 1, 1) != coord(vtx, 0, 1));
    assert(coord(vtx, 1, 2) != coord(vtx, 0, 2));
    assert forall|t: int| 0 <= t < 116 implies #[trigger] triangle_lean(vtx, indices, t) > 0 by {
        if t < 16 {
            lemma_c60_triangles_0(t);
        } else if t < 32 {
            lemma_c60_triangles_16(t);
        } else if t < 48 {
            lemma_c60_triangles_32(t);
        } else if t < 64 {
            lemma_c60_triangles_48(t);
        } else if t < 80 {
            lemma_c60_triangles_64(t);
        } else if t < 96 {
            lemma_c60_triangles_80(t);
        } else if t < 112 {
            lemma_c60_triangles_96(t);
        } else if t < 116 {
            lemma_c60_triangles_112(t);
        }
    }
    assert forall|f: int| 0 <= f < 32 implies #[trigger] plane_away(vtx, polygons, planes, f) > 0 by {
        if f < 16 {
            lemma_c60_planes_0(f);
        } else if f < 32 {
            lemma_c60_planes_16(f);
        }
    }
}

/// Sums of the coordinates of the centred truncated icosahedron.
proof fn lemma_c60_center_sums()
    ensures
        axis_sum(C60_CENTER_VTX@, 92, 0) == 0,
        axis_sum(C60_CENTER_VTX@, 92, 1) == 0,
        axis_sum(C60_CENTER_VTX@, 92, 2) == 0,
{
    let vtx = C60_CENTER_VTX@;
    reveal_with_fuel(axis_sum, 5);
    assert(axis_sum(vtx, 4, 0) == 5393 && axis_sum(vtx, 4, 1) == -34120 && axis_sum(vtx, 4, 2) == -51874);
    assert(axis_sum(vtx, 8, 0) == -41087 && axis_sum(vtx, 8, 1) == -32061 && axis_sum(vtx, 8, 2) == -88054);
    assert(axis_sum(vtx, 12, 0) == -75994 && axis_sum(vtx, 12, 1) == -71087 && axis_sum(vtx, 12, 2) == -101388);
    assert(axis_sum(vtx, 16, 0) == -103448 && axis_sum(vtx, 16, 1) == -122961 && axis_sum(vtx, 16, 2) == -106781);
    assert(axis_sum(vtx, 20, 0) == -65994 && axis_sum(vtx, 20, 1) == -172775 && axis_sum(vtx, 20, 2) == -106781);
    assert(axis_sum(vtx, 24, 0) == -14120 && axis_sum(vtx, 24, 1) == -178168 && axis_sum(vtx, 24, 2) == -140901);
    assert(axis_sum(vtx, 28, 0) == -8726 && axis_sum(vtx, 28, 1) == -150715 && axis_sum(vtx, 28, 2) == -188655);
    assert(axis_sum(vtx, 32, 0) == -10000 && axis_sum(vtx, 32, 1) == -101688 && axis_sum(vtx, 32, 2) == -218955);
    assert(axis_sum(vtx, 36, 0) == -56967 && axis_sum(vtx, 36, 1) == -65994 && axis_sum(vtx, 36, 2) == -210229);
    assert(axis_sum(vtx, 40, 0) == -106781 && axis_sum(vtx, 40, 1) == -65994 && axis_sum(vtx, 40, 2) == -172775);
    assert(axis_sum(vtx, 44, 0) == -112174 && axis_sum(vtx, 44, 1) == -100114 && axis_sum(vtx, 44, 2) == -120901);
    assert(axis_sum(vtx, 48, 0) == -65694 && axis_sum(vtx, 48, 1) == -98055 && axis_sum(vtx, 48, 2) == -84721);
    assert(axis_sum(vtx, 52, 0) == -30787 && axis_sum(vtx, 52, 1) == -76481 && axis_sum(vtx, 52, 2) == -60601);
    assert(axis_sum(vtx, 56, 0) == 0 && axis_sum(vtx, 56, 1) == -37454 && axis_sum(vtx, 56, 2) == -49814);
    assert(axis_sum(vtx, 60, 0) == 0 && axis_sum(vtx, 60, 1) == 0 && axis_sum(vtx, 60, 2) == 0);
    assert(axis_sum(vtx, 64, 0) == -13199 && axis_sum(vtx, 64, 1) == -34555 && axis_sum(vtx, 64, 2) == -21356);
    assert(axis_sum(vtx, 68, 0) == -21356 && axis_sum(vtx, 68, 1) == -13199 && axis_sum(vtx, 68, 2) == -34555);
    assert(axis_sum(vtx, 72, 0) == 0 && axis_sum(vtx, 72, 1) == 0 && axis_sum(vtx, 72, 2) == 0);
    assert(axis_sum(vtx, 76, 0) == 5393 && axis_sum(vtx, 76, 1) == -31574 && axis_sum(vtx, 76, 2) == -36967);
    assert(axis_sum(vtx, 80, 0) == -36967 && axis_sum(vtx, 80, 1) == -22847 && axis_sum(vtx, 80, 2) == -59814);
    assert(axis_sum(vtx, 84, 0) == -22847 && axis_sum(vtx, 84, 1) == -59814 && axis_sum(vtx, 84, 2) == -36967);
    assert(axis_sum(vtx, 88, 0) == 0 && axis_sum(vtx, 88, 1) == -17454 && axis_sum(vtx, 88, 2) == -45694);
    assert(axis_sum(vtx, 92, 0) == 0 && axis_sum(vtx, 92, 1) == 0 && axis_sum(vtx, 92, 2) == 0);
}

/// Triangles 0 to 15 of the centred truncated icosahedron lean outward.
proof fn lemma_c60_center_triangles_0(t: int)
    requires
        0 <= t < 16,
    ensures
        triangle_lean(C60_CENTER_VTX@, C60_CENTER_INDICES@, t) > 0,
{
    let vtx = C60_CENTER_VTX@;
    lemma_c60_center_sums();
    assert(lean_at(0, -8157, -13199, 0, -3333, -16180, 5393, -6667, -14120, 92, 0, 0, 0) > 0
        && lean_at(0, -8157, -13199, 5393, -6667, -14120, 3333, -12060, -10787, 92, 0, 0, 0) > 0
        && lean_at(0, -8157, -13199, 3333, -12060, -10787, -3333, -12060, -10787, 92, 0, 0, 0) > 0
        && lean_at(0, -8157, -13199, -3333, -12060, -10787, -5393, -6667, -14120, 92, 0, 0, 0) > 0
        && lean_at(0, -8157, -13199, -5393, -6667, -14120, 0, -3333, -16180, 92, 0, 0, 0) > 0
        && lean_at(-13199, 0, -8157, -16180, 0, -3333, -14120, 5393, -6667, 92, 0, 0, 0) > 0
        && lean_at(-13199, 0, -8157, -14120, 5393, -6667, -10787, 3333, -12060, 92, 0, 0, 0) > 0
        && lean_at(-13199, 0, -8157, -10787, 3333, -12060, -10787, -3333, -12060, 92, 0, 0, 0) > 0
        && lean_at(-13199, 0, -8157, -10787, -3333, -12060, -14120, -5393, -6667, 92, 0, 0, 0) > 0
        && lean_at(-13199, 0, -8157, -14120, -5393, -6667, -16180, 0, -3333, 92, 0, 0, 0) > 0
        && lean_at(-8157, -13199, 0, -3333, -16180, 0, -6667, -14120, 5393, 92, 0, 0, 0) > 0
        && lean_at(-8157, -13199, 0, -6667, -14120, 5393, -12060, -10787, 3333, 92, 0, 0, 0) > 0
        && lean_at(-8157, -13199, 0, -12060, -10787, 3333, -12060, -10787, -3333, 92, 0, 0, 0) > 0
        && lean_at(-8157, -13199, 0, -12060, -10787, -3333, -6667, -14120, -5393, 92, 0, 0, 0) > 0
        && lean_at(-8157, -13199, 0, -6667, -14120, -5393, -3333, -16180, 0, 92, 0, 0, 0) > 0
        && lean_at(8157, -13199, 0, 3333, -16180, 0, 6667, -14120, -5393, 92, 0, 0, 0) > 0) by (nonlinear_arith);
    if t == 0 {
        lemma_lean_at(vtx, 60, 0, 1);
    } else if t == 1 {
        lemma_lean_at(vtx, 60, 1, 2);
    } else if t == 2 {
        lemma_lean_at(vtx, 60, 2, 3);
    } else if t == 3 {
        lemma_lean_at(vtx, 60, 3, 4);
    } else if t == 4 {
        lemma_lean_at(vtx, 60, 4, 0);
    } else if t == 5 {
        lemma_lean_at(vtx, 61, 5, 6);
    } else if t == 6 {
        lemma_lean_at(vtx, 61, 6, 7);
    } else if t == 7 {
        lemma_lean_at(vtx, 61, 7, 8);
    } else if t == 8 {
        lemma_lean_at(vtx, 61, 8, 9);
    } else if t == 9 {
        lemma_lean_at(vtx, 61, 9, 5);
    } else if t == 10 {
        lemma_lean_at(vtx, 62, 10, 11);
    } else if t == 11 {
        lemma_lean_at(vtx, 62, 11, 12);
    } else if t == 12 {
        lemma_lean_at(vtx, 62, 12, 13);
    } else if t == 13 {
        lemma_lean_at(vtx, 62, 13, 14);
    } else if t == 14 {
        lemma_lean_at(vtx, 62, 14, 10);
    } else if t == 15 {
        lemma_lean_at(vtx, 63, 15, 16);
    }
}

/// Triangles 16 to 31 of the centred truncated icosahedron lean outward.
proof fn lemma_c60_center_triangles_16(t: int)
    requires
        16 <= t < 32,
    ensures
        triangle_lean(C60_CENTER_VTX@, C60_CENTER_INDICES@, t) > 0,
{
    let vtx = C60_CENTER_VTX@;
    lemma_c60_center_sums();
    assert(lean_at(8157, -13199, 0, 6667, -14120, -5393, 12060, -10787, -3333, 92, 0, 0, 0) > 0
        && lean_at(8157, -13199, 0, 12060, -10787, -3333, 12060, -10787, 3333, 92, 0, 0, 0) > 0
        && lean_at(8157, -13199, 0, 12060, -10787, 3333, 6667, -14120, 5393, 92, 0, 0, 0) > 0
        && lean_at(8157, -13199, 0, 6667, -14120, 5393, 3333, -16180, 0, 92, 0, 0, 0) > 0
        && lean_at(13199, 0, -8157, 16180, 0, -3333, 14120, -5393, -6667, 92, 0, 0, 0) > 0
        && lean_at(13199, 0, -8157, 14120, -5393, -6667, 10787, -3333, -12060, 92, 0, 0, 0) > 0
        && lean_at(13199, 0, -8157, 10787, -3333, -12060, 10787, 3333, -12060, 92, 0, 0, 0) > 0
        && lean_at(13199, 0, -8157, 10787, 3333, -12060, 14120, 5393, -6667, 92, 0, 0, 0) > 0
        && lean_at(13199, 0, -8157, 14120, 5393, -6667, 16180, 0, -3333, 92, 0, 0, 0) > 0
        && lean_at(0, 8157, -13199, 0, 3333, -16180, -5393, 6667, -14120, 92, 0, 0, 0) > 0
        && lean_at(0, 8157, -13199, -5393, 6667, -14120, -3333, 12060, -10787, 92, 0, 0, 0) > 0
        && lean_at(0, 8157, -13199, -3333, 12060, -10787, 3333, 12060, -10787, 92, 0, 0, 0) > 0
        && lean_at(0, 8157, -13199, 3333, 12060, -10787, 5393, 6667, -14120, 92, 0, 0, 0) > 0
        && lean_at(0, 8157, -13199, 5393, 6667, -14120, 0, 3333, -16180, 92, 0, 0, 0) > 0
        && lean_at(-8157, 13199, 0, -3333, 16180, 0, -6667, 14120, -5393, 92, 0, 0, 0) > 0
        && lean_at(-8157, 13199, 0, -6667, 14120, -5393, -12060, 10787, -3333, 92, 0, 0, 0) > 0) by (nonlinear_arith);
    if t == 16 {
        lemma_lean_at(vtx, 63, 16, 17);
    } else if t == 17 {
        lemma_lean_at(vtx, 63, 17, 18);
    } else if t == 18 {
        lemma_lean_at(vtx, 63, 18, 19);
    } else if t == 19 {
        lemma_lean_at(vtx, 63, 19, 15);
    } else if t == 20 {
        lemma_lean_at(vtx, 64, 20, 21);
    } else if t == 21 {
        lemma_lean_at(vtx, 64, 21, 22);
    } else if t == 22 {
        lemma_lean_at(vtx, 64, 22, 23);
    } else if t == 23 {
        lemma_lean_at(vtx, 64, 23, 24);
    } else if t == 24 {
        lemma_lean_at(vtx, 64, 24, 20);
    } else if t == 25 {
        lemma_lean_at(vtx, 65, 25, 26);
    } else if t == 26 {
        lemma_lean_at(vtx, 65, 26, 27);
    } else if t == 27 {
        lemma_lean_at(vtx, 65, 27, 28);
    } else if t == 28 {
        lemma_lean_at(vtx, 65, 28, 29);
    } else if t == 29 {
        lemma_lean_at(vtx, 65, 29, 25);
    } else if t == 30 {
        lemma_lean_at(vtx, 66, 30, 31);
    } else if t == 31 {
        lemma_lean_at(vtx, 66, 31, 32);
    }
}

/// Triangles 32 to 47 of the centred truncated icosahedron lean outward.
proof fn lemma_c60_center_triangles_32(t: int)
    requires
        32 <= t < 48,
    ensures
        triangle_lean(C60_CENTER_VTX@, C60_CENTER_INDICES@, t) > 0,
{
    let vtx = C60_CENTER_VTX@;
    lemma_c60_center_sums();
    assert(lean_at(-8157, 13199, 0, -12060, 10787, -3333, -12060, 10787, 3333, 92, 0, 0, 0) > 0
        && lean_at(-8157, 13199, 0, -12060, 10787, 3333, -6667, 14120, 5393, 92, 0, 0, 0) > 0
        && lean_at(-8157, 13199, 0, -6667, 14120, 5393, -3333, 16180, 0, 92, 0, 0, 0) > 0
        && lean_at(-13199, 0, 8157, -16180, 0, 3333, -14120, -5393, 6667, 92, 0, 0, 0) > 0
        && lean_at(-13199, 0, 8157, -14120, -5393, 6667, -10787, -3333, 12060, 92, 0, 0, 0) > 0
        && lean_at(-13199, 0, 8157, -10787, -3333, 12060, -10787, 3333, 12060, 92, 0, 0, 0) > 0
        && lean_at(-13199, 0, 8157, -10787, 3333, 12060, -14120, 5393, 6667, 92, 0, 0, 0) > 0
        && lean_at(-13199, 0, 8157, -14120, 5393, 6667, -16180, 0, 3333, 92, 0, 0, 0) > 0
        && lean_at(0, -8157, 13199, 0, -3333, 16180, -5393, -6667, 14120, 92, 0, 0, 0) > 0
        && lean_at(0, -8157, 13199, -5393, -6667, 14120, -3333, -12060, 10787, 92, 0, 0, 0) > 0
        && lean_at(0, -8157, 13199, -3333, -12060, 10787, 3333, -12060, 10787, 92, 0, 0, 0) > 0
        && lean_at(0, -8157, 13199, 3333, -12060, 10787, 5393, -6667, 14120, 92, 0, 0, 0) > 0
        && lean_at(0, -8157, 13199, 5393, -6667, 14120, 0, -3333, 16180, 92, 0, 0, 0) > 0
        && lean_at(13199, 0, 8157, 16180, 0, 3333, 14120, 5393, 6667, 92, 0, 0, 0) > 0
        && lean_at(13199, 0, 8157, 14120, 5393, 6667, 10787, 3333, 12060, 92, 0, 0, 0) > 0
        && lean_at(13199, 0, 8157, 10787, 3333, 12060, 10787, -3333, 12060, 92, 0, 0, 0) > 0) by (nonlinear_arith);
    if t == 32 {
        lemma_lean_at(vtx, 66, 32, 33);
    } else if t == 33 {
        lemma_lean_at(vtx, 66, 33, 34);
    } else if t == 34 {
        lemma_lean_at(vtx, 66, 34, 30);
    } else if t == 35 {
        lemma_lean_at(vtx, 67, 35, 36);
    } else if t == 36 {
        lemma_lean_at(vtx, 67, 36, 37);
    } else if t == 37 {
        lemma_lean_at(vtx, 67, 37, 38);
    } else if t == 38 {
        lemma_lean_at(vtx, 67, 38, 39);
    } else if t == 39 {
        lemma_lean_at(vtx, 67, 39, 35);
    } else if t == 40 {
        lemma_lean_at(vtx, 68, 40, 41);
    } else if t == 41 {
        lemma_lean_at(vtx, 68, 41, 42);
    } else if t == 42 {
        lemma_lean_at(vtx, 68, 42, 43);
    } else if t == 43 {
        lemma_lean_at(vtx, 68, 43, 44);
    } else if t == 44 {
        lemma_lean_at(vtx, 68, 44, 40);
    } else if t == 45 {
        lemma_lean_at(vtx, 69, 45, 46);
    } else if t == 46 {
        lemma_lean_at(vtx, 69, 46, 47);
    } else if t == 47 {
        lemma_lean_at(vtx, 69, 47, 48);
    }
}

/// Triangles 48 to 63 of the centred truncated icosahedron lean outward.
proof fn lemma_c60_center_triangles_48(t: int)
    requires
        48 <= t < 64,
    ensures
        triangle_lean(C60_CENTER_VTX@, C60_CENTER_INDICES@, t) > 0,
{
    let vtx = C60_CENTER_VTX@;
    lemma_c60_center_sums();
    assert(lean_at(13199, 0, 8157, 10787, -3333, 12060, 14120, -5393, 6667, 92, 0, 0, 0) > 0
        && lean_at(13199, 0, 8157, 14120, -5393, 6667, 16180, 0, 3333, 92, 0, 0, 0) > 0
        && lean_at(8157, 13199, 0, 3333, 16180, 0, 6667, 14120, 5393, 92, 0, 0, 0) > 0
        && lean_at(8157, 13199, 0, 6667, 14120, 5393, 12060, 10787, 3333, 92, 0, 0, 0) > 0
        && lean_at(8157, 13199, 0, 12060, 10787, 3333, 12060, 10787, -3333, 92, 0, 0, 0) > 0
        && lean_at(8157, 13199, 0, 12060, 10787, -3333, 6667, 14120, -5393, 92, 0, 0, 0) > 0
        && lean_at(8157, 13199, 0, 6667, 14120, -5393, 3333, 16180, 0, 92, 0, 0, 0) > 0
        && lean_at(0, 8157, 13199, 0, 3333, 16180, 5393, 6667, 14120, 92, 0, 0, 0) > 0
        && lean_at(0, 8157, 13199, 5393, 6667, 14120, 3333, 12060, 10787, 92, 0, 0, 0) > 0
        && lean_at(0, 8157, 13199, 3333, 12060, 10787, -3333, 12060, 10787, 92, 0, 0, 0) > 0
        && lean_at(0, 8157, 13199, -3333, 12060, 10787, -5393, 6667, 14120, 92, 0, 0, 0) > 0
        && lean_at(0, 8157, 13199, -5393, 6667, 14120, 0, 3333, 16180, 92, 0, 0, 0) > 0
        && lean_at(-8727, -8727, -8727, -3333, -12060, -10787, -6667, -14120, -5393, 92, 0, 0, 0) > 0
        && lean_at(-8727, -8727, -8727, -6667, -14120, -5393, -12060, -10787, -3333, 92, 0, 0, 0) > 0
        && lean_at(-8727, -8727, -8727, -12060, -10787, -3333, -14120, -5393, -6667, 92, 0, 0, 0) > 0
        && lean_at(-8727, -8727, -8727, -14120, -5393, -6667, -10787, -3333, -12060, 92, 0, 0, 0) > 0) by (nonlinear_arith);
    if t == 48 {
        lemma_lean_at(vtx, 69, 48, 49);
    } else if t == 49 {
        lemma_lean_at(vtx, 69, 49, 45);
    } else if t == 50 {
        lemma_lean_at(vtx, 70, 50, 51);
    } else if t == 51 {
        lemma_lean_at(vtx, 70, 51, 52);
    } else if t == 52 {
        lemma_lean_at(vtx, 70, 52, 53);
    } else if t == 53 {
        lemma_lean_at(vtx, 70, 53, 54);
    } else if t == 54 {
        lemma_lean_at(vtx, 70, 54, 50);
    } else if t == 55 {
        lemma_lean_at(vtx, 71, 55, 56);
    } else if t == 56 {
        lemma_lean_at(vtx, 71, 56, 57);
    } else if t == 57 {
        lemma_lean_at(vtx, 71, 57, 58);
    } else if t == 58 {
        lemma_lean_at(vtx, 71, 58, 59);
    } else if t == 59 {
        lemma_lean_at(vtx, 71, 59, 55);
    } else if t == 60 {
        lemma_lean_at(vtx, 72, 3, 14);
    } else if t == 61 {
        lemma_lean_at(vtx, 72, 14, 13);
    } else if t == 62 {
        lemma_lean_at(vtx, 72, 13, 9);
    } else if t == 63 {
        lemma_lean_at(vtx, 72, 9, 8);
    }
}

/// Triangles 64 to 79 of the centred truncated icosahedron lean outward.
proof fn lemma_c60_center_triangles_64(t: int)
    requires
        64 <= t < 80,
    ensures
        triangle_lean(C60_CENTER_VTX@, C60_CENTER_INDICES@, t) > 0,
{
    let vtx = C60_CENTER_VTX@;
    lemma_c60_center_sums();
    assert(lean_at(-8727, -8727, -8727, -10787, -3333, -12060, -5393, -6667, -14120, 92, 0, 0, 0) > 0
        && lean_at(-8727, -8727, -8727, -5393, -6667, -14120, -3333, -12060, -10787, 92, 0, 0, 0) > 0
        && lean_at(0, -14120, -5393, 3333, -12060, -10787, 6667, -14120, -5393, 92, 0, 0, 0) > 0
        && lean_at(0, -14120, -5393, 6667, -14120, -5393, 3333, -16180, 0, 92, 0, 0, 0) > 0
        && lean_at(0, -14120, -5393, 3333, -16180, 0, -3333, -16180, 0, 92, 0, 0, 0) > 0
        && lean_at(0, -14120, -5393, -3333, -16180, 0, -6667, -14120, -5393, 92, 0, 0, 0) > 0
        && lean_at(0, -14120, -5393, -6667, -14120, -5393, -3333, -12060, -10787, 92, 0, 0, 0) > 0
        && lean_at(0, -14120, -5393, -3333, -12060, -10787, 3333, -12060, -10787, 92, 0, 0, 0) > 0
        && lean_at(8727, -8727, -8727, 5393, -6667, -14120, 10787, -3333, -12060, 92, 0, 0, 0) > 0
        && lean_at(8727, -8727, -8727, 10787, -3333, -12060, 14120, -5393, -6667, 92, 0, 0, 0) > 0
        && lean_at(8727, -8727, -8727, 14120, -5393, -6667, 12060, -10787, -3333, 92, 0, 0, 0) > 0
        && lean_at(8727, -8727, -8727, 12060, -10787, -3333, 6667, -14120, -5393, 92, 0, 0, 0) > 0
        && lean_at(8727, -8727, -8727, 6667, -14120, -5393, 3333, -12060, -10787, 92, 0, 0, 0) > 0
        && lean_at(8727, -8727, -8727, 3333, -12060, -10787, 5393, -6667, -14120, 92, 0, 0, 0) > 0
        && lean_at(5393, 0, -14120, 0, -3333, -16180, 0, 3333, -16180, 92, 0, 0, 0) > 0
        && lean_at(5393, 0, -14120, 0, 3333, -16180, 5393, 6667, -14120, 92, 0, 0, 0) > 0) by (nonlinear_arith);
    if t == 64 {
        lemma_lean_at(vtx, 72, 8, 4);
    } else if t == 65 {
        lemma_lean_at(vtx, 72, 4, 3);
    } else if t == 66 {
        lemma_lean_at(vtx, 73, 2, 16);
    } else if t == 67 {
        lemma_lean_at(vtx, 73, 16, 15);
    } else if t == 68 {
        lemma_lean_at(vtx, 73, 15, 10);
    } else if t == 69 {
        lemma_lean_at(vtx, 73, 10, 14);
    } else if t == 70 {
        lemma_lean_at(vtx, 73, 14, 3);
    } else if t == 71 {
        lemma_lean_at(vtx, 73, 3, 2);
    } else if t == 72 {
        lemma_lean_at(vtx, 74, 1, 22);
    } else if t == 73 {
        lemma_lean_at(vtx, 74, 22, 21);
    } else if t == 74 {
        lemma_lean_at(vtx, 74, 21, 17);
    } else if t == 75 {
        lemma_lean_at(vtx, 74, 17, 16);
    } else if t == 76 {
        lemma_lean_at(vtx, 74, 16, 2);
    } else if t == 77 {
        lemma_lean_at(vtx, 74, 2, 1);
    } else if t == 78 {
        lemma_lean_at(vtx, 75, 0, 25);
    } else if t == 79 {
        lemma_lean_at(vtx, 75, 25, 29);
    }
}

/// Triangles 80 to 95 of the centred truncated icosahedron lean outward.
proof fn lemma_c60_center_triangles_80(t: int)
    requires
        80 <= t < 96,
    ensures
        triangle_lean(C60_CENTER_VTX@, C60_CENTER_INDICES@, t) > 0,
{
    let vtx = C60_CENTER_VTX@;
    lemma_c60_center_sums();
    assert(lean_at(5393, 0, -14120, 5393, 6667, -14120, 10787, 3333, -12060, 92, 0, 0, 0) > 0
        && lean_at(5393, 0, -14120, 10787, 3333, -12060, 10787, -3333, -12060, 92, 0, 0, 0) > 0
        && lean_at(5393, 0, -14120, 10787, -3333, -12060, 5393, -6667, -14120, 92, 0, 0, 0) > 0
        && lean_at(5393, 0, -14120, 5393, -6667, -14120, 0, -3333, -16180, 92, 0, 0, 0) > 0
        && lean_at(-5393, 0, -14120, -5393, -6667, -14120, -10787, -3333, -12060, 92, 0, 0, 0) > 0
        && lean_at(-5393, 0, -14120, -10787, -3333, -12060, -10787, 3333, -12060, 92, 0, 0, 0) > 0
        && lean_at(-5393, 0, -14120, -10787, 3333, -12060, -5393, 6667, -14120, 92, 0, 0, 0) > 0
        && lean_at(-5393, 0, -14120, -5393, 6667, -14120, 0, 3333, -16180, 92, 0, 0, 0) > 0
        && lean_at(-5393, 0, -14120, 0, 3333, -16180, 0, -3333, -16180, 92, 0, 0, 0) > 0
        && lean_at(-5393, 0, -14120, 0, -3333, -16180, -5393, -6667, -14120, 92, 0, 0, 0) > 0
        && lean_at(-8727, 8727, -8727, -10787, 3333, -12060, -14120, 5393, -6667, 92, 0, 0, 0) > 0
        && lean_at(-8727, 8727, -8727, -14120, 5393, -6667, -12060, 10787, -3333, 92, 0, 0, 0) > 0
        && lean_at(-8727, 8727, -8727, -12060, 10787, -3333, -6667, 14120, -5393, 92, 0, 0, 0) > 0
        && lean_at(-8727, 8727, -8727, -6667, 14120, -5393, -3333, 12060, -10787, 92, 0, 0, 0) > 0
        && lean_at(-8727, 8727, -8727, -3333, 12060, -10787, -5393, 6667, -14120, 92, 0, 0, 0) > 0
        && lean_at(-8727, 8727, -8727, -5393, 6667, -14120, -10787, 3333, -12060, 92, 0, 0, 0) > 0) by (nonlinear_arith);
    if t == 80 {
        lemma_lean_at(vtx, 75, 29, 23);
    } else if t == 81 {
        lemma_lean_at(vtx, 75, 23, 22);
    } else if t == 82 {
        lemma_lean_at(vtx, 75, 22, 1);
    } else if t == 83 {
        lemma_lean_at(vtx, 75, 1, 0);
    } else if t == 84 {
        lemma_lean_at(vtx, 76, 4, 8);
    } else if t == 85 {
        lemma_lean_at(vtx, 76, 8, 7);
    } else if t == 86 {
        lemma_lean_at(vtx, 76, 7, 26);
    } else if t == 87 {
        lemma_lean_at(vtx, 76, 26, 25);
    } else if t == 88 {
        lemma_lean_at(vtx, 76, 25, 0);
    } else if t == 89 {
        lemma_lean_at(vtx, 76, 0, 4);
    } else if t == 90 {
        lemma_lean_at(vtx, 77, 7, 6);
    } else if t == 91 {
        lemma_lean_at(vtx, 77, 6, 32);
    } else if t == 92 {
        lemma_lean_at(vtx, 77, 32, 31);
    } else if t == 93 {
        lemma_lean_at(vtx, 77, 31, 27);
    } else if t == 94 {
        lemma_lean_at(vtx, 77, 27, 26);
    } else if t == 95 {
        lemma_lean_at(vtx, 77, 26, 7);
    }
}

/// Triangles 96 to 111 of the centred truncated icosahedron lean outward.
proof fn lemma_c60_center_triangles_96(t: int)
    requires
        96 <= t < 112,
    ensures
        triangle_lean(C60_CENTER_VTX@, C60_CENTER_INDICES@, t) > 0,
{
    let vtx = C60_CENTER_VTX@;
    lemma_c60_center_sums();
    assert(lean_at(-14120, 5393, 0, -16180, 0, -3333, -16180, 0, 3333, 92, 0, 0, 0) > 0
        && lean_at(-14120, 5393, 0, -16180, 0, 3333, -14120, 5393, 6667, 92, 0, 0, 0) > 0
        && lean_at(-14120, 5393, 0, -14120, 5393, 6667, -12060, 10787, 3333, 92, 0, 0, 0) > 0
        && lean_at(-14120, 5393, 0, -12060, 10787, 3333, -12060, 10787, -3333, 92, 0, 0, 0) > 0
        && lean_at(-14120, 5393, 0, -12060, 10787, -3333, -14120, 5393, -6667, 92, 0, 0, 0) > 0
        && lean_at(-14120, 5393, 0, -14120, 5393, -6667, -16180, 0, -3333, 92, 0, 0, 0) > 0
        && lean_at(-14120, -5393, 0, -12060, -10787, -3333, -12060, -10787, 3333, 92, 0, 0, 0) > 0
        && lean_at(-14120, -5393, 0, -12060, -10787, 3333, -14120, -5393, 6667, 92, 0, 0, 0) > 0
        && lean_at(-14120, -5393, 0, -14120, -5393, 6667, -16180, 0, 3333, 92, 0, 0, 0) > 0
        && lean_at(-14120, -5393, 0, -16180, 0, 3333, -16180, 0, -3333, 92, 0, 0, 0) > 0
        && lean_at(-14120, -5393, 0, -16180, 0, -3333, -14120, -5393, -6667, 92, 0, 0, 0) > 0
        && lean_at(-14120, -5393, 0, -14120, -5393, -6667, -12060, -10787, -3333, 92, 0, 0, 0) > 0
        && lean_at(-8727, -8727, 8727, -6667, -14120, 5393, -3333, -12060, 10787, 92, 0, 0, 0) > 0
        && lean_at(-8727, -8727, 8727, -3333, -12060, 10787, -5393, -6667, 14120, 92, 0, 0, 0) > 0
        && lean_at(-8727, -8727, 8727, -5393, -6667, 14120, -10787, -3333, 12060, 92, 0, 0, 0) > 0
        && lean_at(-8727, -8727, 8727, -10787, -3333, 12060, -14120, -5393, 6667, 92, 0, 0, 0) > 0) by (nonlinear_arith);
    if t == 96 {
        lemma_lean_at(vtx, 78, 5, 35);
    } else if t == 97 {
        lemma_lean_at(vtx, 78, 35, 39);
    } else if t == 98 {
        lemma_lean_at(vtx, 78, 39, 33);
    } else if t == 99 {
        lemma_lean_at(vtx, 78, 33, 32);
    } else if t == 100 {
        lemma_lean_at(vtx, 78, 32, 6);
    } else if t == 101 {
        lemma_lean_at(vtx, 78, 6, 5);
    } else if t == 102 {
        lemma_lean_at(vtx, 79, 13, 12);
    } else if t == 103 {
        lemma_lean_at(vtx, 79, 12, 36);
    } else if t == 104 {
        lemma_lean_at(vtx, 79, 36, 35);
    } else if t == 105 {
        lemma_lean_at(vtx, 79, 35, 5);
    } else if t == 106 {
        lemma_lean_at(vtx, 79, 5, 9);
    } else if t == 107 {
        lemma_lean_at(vtx, 79, 9, 13);
    } else if t == 108 {
        lemma_lean_at(vtx, 80, 11, 42);
    } else if t == 109 {
        lemma_lean_at(vtx, 80, 42, 41);
    } else if t == 110 {
        lemma_lean_at(vtx, 80, 41, 37);
    } else if t == 111 {
        lemma_lean_at(vtx, 80, 37, 36);
    }
}

/// Triangles 112 to 127 of the centred truncated icosahedron lean outward.
proof fn lemma_c60_center_triangles_112(t: int)
    requires
        112 <= t < 128,
    ensures
        triangle_lean(C60_CENTER_VTX@, C60_CENTER_INDICES@, t) > 0,
{
    let vtx = C60_CENTER_VTX@;
    lemma_c60_center_sums();
    assert(lean_at(-8727, -8727, 8727, -14120, -5393, 6667, -12060, -10787, 3333, 92, 0, 0, 0) > 0
        && lean_at(-8727, -8727, 8727, -12060, -10787, 3333, -6667, -14120, 5393, 92, 0, 0, 0) > 0
        && lean_at(0, -14120, 5393, 3333, -16180, 0, 6667, -14120, 5393, 92, 0, 0, 0) > 0
        && lean_at(0, -14120, 5393, 6667, -14120, 5393, 3333, -12060, 10787, 92, 0, 0, 0) > 0
        && lean_at(0, -14120, 5393, 3333, -12060, 10787, -3333, -12060, 10787, 92, 0, 0, 0) > 0
        && lean_at(0, -14120, 5393, -3333, -12060, 10787, -6667, -14120, 5393, 92, 0, 0, 0) > 0
        && lean_at(0, -14120, 5393, -6667, -14120, 5393, -3333, -16180, 0, 92, 0, 0, 0) > 0
        && lean_at(0, -14120, 5393, -3333, -16180, 0, 3333, -16180, 0, 92, 0, 0, 0) > 0
        && lean_at(8727, -8727, 8727, 12060, -10787, 3333, 14120, -5393, 6667, 92, 0, 0, 0) > 0
        && lean_at(8727, -8727, 8727, 14120, -5393, 6667, 10787, -3333, 12060, 92, 0, 0, 0) > 0
        && lean_at(8727, -8727, 8727, 10787, -3333, 12060, 5393, -6667, 14120, 92, 0, 0, 0) > 0
        && lean_at(8727, -8727, 8727, 5393, -6667, 14120, 3333, -12060, 10787, 92, 0, 0, 0) > 0
        && lean_at(8727, -8727, 8727, 3333, -12060, 10787, 6667, -14120, 5393, 92, 0, 0, 0) > 0
        && lean_at(8727, -8727, 8727, 6667, -14120, 5393, 12060, -10787, 3333, 92, 0, 0, 0) > 0
        && lean_at(14120, -5393, 0, 14120, -5393, -6667, 16180, 0, -3333, 92, 0, 0, 0) > 0
        && lean_at(14120, -5393, 0, 16180, 0, -3333, 16180, 0, 3333, 92, 0, 0, 0) > 0) by (nonlinear_arith);
    if t == 112 {
        lemma_lean_at(vtx, 80, 36, 12);
    } else if t == 113 {
        lemma_lean_at(vtx, 80, 12, 11);
    } else if t == 114 {
        lemma_lean_at(vtx, 81, 15, 19);
    } else if t == 115 {
        lemma_lean_at(vtx, 81, 19, 43);
    } else if t == 116 {
        lemma_lean_at(vtx, 81, 43, 42);
    } else if t == 117 {
        lemma_lean_at(vtx, 81, 42, 11);
    } else if t == 118 {
        lemma_lean_at(vtx, 81, 11, 10);
    } else if t == 119 {
        lemma_lean_at(vtx, 81, 10, 15);
    } else if t == 120 {
        lemma_lean_at(vtx, 82, 18, 49);
    } else if t == 121 {
        lemma_lean_at(vtx, 82, 49, 48);
    } else if t == 122 {
        lemma_lean_at(vtx, 82, 48, 44);
    } else if t == 123 {
        lemma_lean_at(vtx, 82, 44, 43);
    } else if t == 124 {
        lemma_lean_at(vtx, 82, 43, 19);
    } else if t == 125 {
        lemma_lean_at(vtx, 82, 19, 18);
    } else if t == 126 {
        lemma_lean_at(vtx, 83, 21, 20);
    } else if t == 127 {
        lemma_lean_at(vtx, 83, 20, 45);
    }
}

/// Triangles 128 to 143 of the centred truncated icosahedron lean outward.
proof fn lemma_c60_center_triangles_128(t: int)
    requires
        128 <= t < 144,
    ensures
        triangle_lean(C60_CENTER_VTX@, C60_CENTER_INDICES@, t) > 0,
{
    let vtx = C60_CENTER_VTX@;
    lemma_c60_center_sums();
    assert(lean_at(14120, -5393, 0, 16180, 0, 3333, 14120, -5393, 6667, 92, 0, 0, 0) > 0
        && lean_at(14120, -5393, 0, 14120, -5393, 6667, 12060, -10787, 3333, 92, 0, 0, 0) > 0
        && lean_at(14120, -5393, 0, 12060, -10787, 3333, 12060, -10787, -3333, 92, 0, 0, 0) > 0
        && lean_at(14120, -5393, 0, 12060, -10787, -3333, 14120, -5393, -6667, 92, 0, 0, 0) > 0
        && lean_at(14120, 5393, 0, 14120, 5393, -6667, 12060, 10787, -3333, 92, 0, 0, 0) > 0
        && lean_at(14120, 5393, 0, 12060, 10787, -3333, 12060, 10787, 3333, 92, 0, 0, 0) > 0
        && lean_at(14120, 5393, 0, 12060, 10787, 3333, 14120, 5393, 6667, 92, 0, 0, 0) > 0
        && lean_at(14120, 5393, 0, 14120, 5393, 6667, 16180, 0, 3333, 92, 0, 0, 0) > 0
        && lean_at(14120, 5393, 0, 16180, 0, 3333, 16180, 0, -3333, 92, 0, 0, 0) > 0
        && lean_at(14120, 5393, 0, 16180, 0, -3333, 14120, 5393, -6667, 92, 0, 0, 0) > 0
        && lean_at(8727, 8727, -8727, 5393, 6667, -14120, 3333, 12060, -10787, 92, 0, 0, 0) > 0
        && lean_at(8727, 8727, -8727, 3333, 12060, -10787, 6667, 14120, -5393, 92, 0, 0, 0) > 0
        && lean_at(8727, 8727, -8727, 6667, 14120, -5393, 12060, 10787, -3333, 92, 0, 0, 0) > 0
        && lean_at(8727, 8727, -8727, 12060, 10787, -3333, 14120, 5393, -6667, 92, 0, 0, 0) > 0
        && lean_at(8727, 8727, -8727, 14120, 5393, -6667, 10787, 3333, -12060, 92, 0, 0, 0) > 0
        && lean_at(8727, 8727, -8727, 10787, 3333, -12060, 5393, 6667, -14120, 92, 0, 0, 0) > 0) by (nonlinear_arith);
    if t == 128 {
        lemma_lean_at(vtx, 83, 45, 49);
    } else if t == 129 {
        lemma_lean_at(vtx, 83, 49, 18);
    } else if t == 130 {
        lemma_lean_at(vtx, 83, 18, 17);
    } else if t == 131 {
        lemma_lean_at(vtx, 83, 17, 21);
    } else if t == 132 {
        lemma_lean_at(vtx, 84, 24, 53);
    } else if t == 133 {
        lemma_lean_at(vtx, 84, 53, 52);
    } else if t == 134 {
        lemma_lean_at(vtx, 84, 52, 46);
    } else if t == 135 {
        lemma_lean_at(vtx, 84, 46, 45);
    } else if t == 136 {
        lemma_lean_at(vtx, 84, 45, 20);
    } else if t == 137 {
        lemma_lean_at(vtx, 84, 20, 24);
    } else if t == 138 {
        lemma_lean_at(vtx, 85, 29, 28);
    } else if t == 139 {
        lemma_lean_at(vtx, 85, 28, 54);
    } else if t == 140 {
        lemma_lean_at(vtx, 85, 54, 53);
    } else if t == 141 {
        lemma_lean_at(vtx, 85, 53, 24);
    } else if t == 142 {
        lemma_lean_at(vtx, 85, 24, 23);
    } else if t == 143 {
        lemma_lean_at(vtx, 85, 23, 29);
    }
}

/// Triangles 144 to 159 of the centred truncated icosahedron lean outward.
proof fn lemma_c60_center_triangles_144(t: int)
    requires
        144 <= t < 160,
    ensures
        triangle_lean(C60_CENTER_VTX@, C60_CENTER_INDICES@, t) > 0,
{
    let vtx = C60_CENTER_VTX@;
    lemma_c60_center_sums();
    assert(lean_at(0, 14120, -5393, -3333, 12060, -10787, -6667, 14120, -5393, 92, 0, 0, 0) > 0
        && lean_at(0, 14120, -5393, -6667, 14120, -5393, -3333, 16180, 0, 92, 0, 0, 0) > 0
        && lean_at(0, 14120, -5393, -3333, 16180, 0, 3333, 16180, 0, 92, 0, 0, 0) > 0
        && lean_at(0, 14120, -5393, 3333, 16180, 0, 6667, 14120, -5393, 92, 0, 0, 0) > 0
        && lean_at(0, 14120, -5393, 6667, 14120, -5393, 3333, 12060, -10787, 92, 0, 0, 0) > 0
        && lean_at(0, 14120, -5393, 3333, 12060, -10787, -3333, 12060, -10787, 92, 0, 0, 0) > 0
        && lean_at(0, 14120, 5393, -3333, 16180, 0, -6667, 14120, 5393, 92, 0, 0, 0) > 0
        && lean_at(0, 14120, 5393, -6667, 14120, 5393, -3333, 12060, 10787, 92, 0, 0, 0) > 0
        && lean_at(0, 14120, 5393, -3333, 12060, 10787, 3333, 12060, 10787, 92, 0, 0, 0) > 0
        && lean_at(0, 14120, 5393, 3333, 12060, 10787, 6667, 14120, 5393, 92, 0, 0, 0) > 0
        && lean_at(0, 14120, 5393, 6667, 14120, 5393, 3333, 16180, 0, 92, 0, 0, 0) > 0
        && lean_at(0, 14120, 5393, 3333, 16180, 0, -3333, 16180, 0, 92, 0, 0, 0) > 0
        && lean_at(-8727, 8727, 8727, -14120, 5393, 6667, -10787, 3333, 12060, 92, 0, 0, 0) > 0
        && lean_at(-8727, 8727, 8727, -10787, 3333, 12060, -5393, 6667, 14120, 92, 0, 0, 0) > 0
        && lean_at(-8727, 8727, 8727, -5393, 6667, 14120, -3333, 12060, 10787, 92, 0, 0, 0) > 0
        && lean_at(-8727, 8727, 8727, -3333, 12060, 10787, -6667, 14120, 5393, 92, 0, 0, 0) > 0) by (nonlinear_arith);
    if t == 144 {
        lemma_lean_at(vtx, 86, 27, 31);
    } else if t == 145 {
        lemma_lean_at(vtx, 86, 31, 30);
    } else if t == 146 {
        lemma_lean_at(vtx, 86, 30, 50);
    } else if t == 147 {
        lemma_lean_at(vtx, 86, 50, 54);
    } else if t == 148 {
        lemma_lean_at(vtx, 86, 54, 28);
    } else if t == 149 {
        lemma_lean_at(vtx, 86, 28, 27);
    } else if t == 150 {
        lemma_lean_at(vtx, 87, 30, 34);
    } else if t == 151 {
        lemma_lean_at(vtx, 87, 34, 58);
    } else if t == 152 {
        lemma_lean_at(vtx, 87, 58, 57);
    } else if t == 153 {
        lemma_lean_at(vtx, 87, 57, 51);
    } else if t == 154 {
        lemma_lean_at(vtx, 87, 51, 50);
    } else if t == 155 {
        lemma_lean_at(vtx, 87, 50, 30);
    } else if t == 156 {
        lemma_lean_at(vtx, 88, 39, 38);
    } else if t == 157 {
        lemma_lean_at(vtx, 88, 38, 59);
    } else if t == 158 {
        lemma_lean_at(vtx, 88, 59, 58);
    } else if t == 159 {
        lemma_lean_at(vtx, 88, 58, 34);
    }
}

/// Triangles 160 to 175 of the centred truncated icosahedron lean outward.
proof fn lemma_c60_center_triangles_160(t: int)
    requires
        160 <= t < 176,
    ensures
        triangle_lean(C60_CENTER_VTX@, C60_CENTER_INDICES@, t) > 0,
{
    let vtx = C60_CENTER_VTX@;
    lemma_c60_center_sums();
    assert(lean_at(-8727, 8727, 8727, -6667, 14120, 5393, -12060, 10787, 3333, 92, 0, 0, 0) > 0
        && lean_at(-8727, 8727, 8727, -12060, 10787, 3333, -14120, 5393, 6667, 92, 0, 0, 0) > 0
        && lean_at(-5393, 0, 14120, -5393, -6667, 14120, 0, -3333, 16180, 92, 0, 0, 0) > 0
        && lean_at(-5393, 0, 14120, 0, -3333, 16180, 0, 3333, 16180, 92, 0, 0, 0) > 0
        && lean_at(-5393, 0, 14120, 0, 3333, 16180, -5393, 6667, 14120, 92, 0, 0, 0) > 0
        && lean_at(-5393, 0, 14120, -5393, 6667, 14120, -10787, 3333, 12060, 92, 0, 0, 0) > 0
        && lean_at(-5393, 0, 14120, -10787, 3333, 12060, -10787, -3333, 12060, 92, 0, 0, 0) > 0
        && lean_at(-5393, 0, 14120, -10787, -3333, 12060, -5393, -6667, 14120, 92, 0, 0, 0) > 0
        && lean_at(5393, 0, 14120, 10787, -3333, 12060, 10787, 3333, 12060, 92, 0, 0, 0) > 0
        && lean_at(5393, 0, 14120, 10787, 3333, 12060, 5393, 6667, 14120, 92, 0, 0, 0) > 0
        && lean_at(5393, 0, 14120, 5393, 6667, 14120, 0, 3333, 16180, 92, 0, 0, 0) > 0
        && lean_at(5393, 0, 14120, 0, 3333, 16180, 0, -3333, 16180, 92, 0, 0, 0) > 0
        && lean_at(5393, 0, 14120, 0, -3333, 16180, 5393, -6667, 14120, 92, 0, 0, 0) > 0
        && lean_at(5393, 0, 14120, 5393, -6667, 14120, 10787, -3333, 12060, 92, 0, 0, 0) > 0
        && lean_at(8727, 8727, 8727, 12060, 10787, 3333, 6667, 14120, 5393, 92, 0, 0, 0) > 0
        && lean_at(8727, 8727, 8727, 6667, 14120, 5393, 3333, 12060, 10787, 92, 0, 0, 0) > 0) by (nonlinear_arith);
    if t == 160 {
        lemma_lean_at(vtx, 88, 34, 33);
    } else if t == 161 {
        lemma_lean_at(vtx, 88, 33, 39);
    } else if t == 162 {
        lemma_lean_at(vtx, 89, 41, 40);
    } else if t == 163 {
        lemma_lean_at(vtx, 89, 40, 55);
    } else if t == 164 {
        lemma_lean_at(vtx, 89, 55, 59);
    } else if t == 165 {
        lemma_lean_at(vtx, 89, 59, 38);
    } else if t == 166 {
        lemma_lean_at(vtx, 89, 38, 37);
    } else if t == 167 {
        lemma_lean_at(vtx, 89, 37, 41);
    } else if t == 168 {
        lemma_lean_at(vtx, 90, 48, 47);
    } else if t == 169 {
        lemma_lean_at(vtx, 90, 47, 56);
    } else if t == 170 {
        lemma_lean_at(vtx, 90, 56, 55);
    } else if t == 171 {
        lemma_lean_at(vtx, 90, 55, 40);
    } else if t == 172 {
        lemma_lean_at(vtx, 90, 40, 44);
    } else if t == 173 {
        lemma_lean_at(vtx, 90, 44, 48);
    } else if t == 174 {
        lemma_lean_at(vtx, 91, 52, 51);
    } else if t == 175 {
        lemma_lean_at(vtx, 91, 51, 57);
    }
}

/// Triangles 176 to 179 of the centred truncated icosahedron lean outward.
proof fn lemma_c60_center_triangles_176(t: int)
    requires
        176 <= t < 180,
    ensures
        triangle_lean(C60_CENTER_VTX@, C60_CENTER_INDICES@, t) > 0,
{
    let vtx = C60_CENTER_VTX@;
    lemma_c60_center_sums();
    assert(lean_at(8727, 8727, 8727, 3333, 12060, 10787, 5393, 6667, 14120, 92, 0, 0, 0) > 0
        && lean_at(8727, 8727, 8727, 5393, 6667, 14120, 10787, 3333, 12060, 92, 0, 0, 0) > 0
        && lean_at(8727, 8727, 8727, 10787, 3333, 12060, 14120, 5393, 6667, 92, 0, 0, 0) > 0
        && lean_at(8727, 8727, 8727, 14120, 5393, 6667, 12060, 10787, 3333, 92, 0, 0, 0) > 0) by (nonlinear_arith);
    if t == 176 {
        lemma_lean_at(vtx, 91, 57, 56);
    } else if t == 177 {
        lemma_lean_at(vtx, 91, 56, 47);
    } else if t == 178 {
        lemma_lean_at(vtx, 91, 47, 46);
    } else if t == 179 {
        lemma_lean_at(vtx, 91, 46, 52);
    }
}

/// Planes 0 to 15 of the centred truncated icosahedron look outward.
proof fn lemma_c60_center_planes_0(f: int)
    requires
        0 <= f < 16,
    ensures
        plane_away(C60_CENTER_VTX@, C60_POLYGONS@, C60_PLANES@, f) > 0,
{
    let vtx = C60_CENTER_VTX@;
    lemma_c60_center_sums();
    lemma_c60_faces(92);
    assert(away_at(0, -3333, -16180, 0, -5257, -8507, 92, 0, 0, 0) > 0
        && away_at(-16180, 0, -3333, -8507, 0, -5257, 92, 0, 0, 0) > 0
        && away_at(-3333, -16180, 0, -5257, -8507, 0, 92, 0, 0, 0) > 0
        && away_at(3333, -16180, 0, 5257, -8507, 0, 92, 0, 0, 0) > 0
        && away_at(16180, 0, -3333, 8507, 0, -5257, 92, 0, 0, 0) > 0
        && away_at(0, 3333, -16180, 0, 5257, -8507, 92, 0, 0, 0) > 0
        && away_at(-3333, 16180, 0, -5257, 8507, 0, 92, 0, 0, 0) > 0
        && away_at(-16180, 0, 3333, -8507, 0, 5257, 92, 0, 0, 0) > 0
        && away_at(0, -3333, 16180, 0, -5257, 8507, 92, 0, 0, 0) > 0
        && away_at(16180, 0, 3333, 8507, 0, 5257, 92, 0, 0, 0) > 0
        && away_at(3333, 16180, 0, 5257, 8507, 0, 92, 0, 0, 0) > 0
        && away_at(0, 3333, 16180, 0, 5257, 8507, 92, 0, 0, 0) > 0
        && away_at(-3333, -12060, -10787, -5774, -5774, -5774, 92, 0, 0, 0) > 0
        && away_at(3333, -12060, -10787, 0, -9342, -3568, 92, 0, 0, 0) > 0
        && away_at(5393, -6667, -14120, 5774, -5774, -5774, 92, 0, 0, 0) > 0
        && away_at(0, -3333, -16180, 3568, 0, -9342, 92, 0, 0, 0) > 0) by (nonlinear_arith);
    if f == 0 {
        lemma_away_at(vtx, 0, 0, -5257, -8507);
    } else if f == 1 {
        lemma_away_at(vtx, 5, -8507, 0, -5257);
    } else if f == 2 {
        lemma_away_at(vtx, 10, -5257, -8507, 0);
    } else if f == 3 {
        lemma_away_at(vtx, 15, 5257, -8507, 0);
    } else if f == 4 {
        lemma_away_at(vtx, 20, 8507, 0, -5257);
    } else if f == 5 {
        lemma_away_at(vtx, 25, 0, 5257, -8507);
    } else if f == 6 {
        lemma_away_at(vtx, 30, -5257, 8507, 0);
    } else if f == 7 {
        lemma_away_at(vtx, 35, -8507, 0, 5257);
    } else if f == 8 {
        lemma_away_at(vtx, 40, 0, -5257, 8507);
    } else if f == 9 {
        lemma_away_at(vtx, 45, 8507, 0, 5257);
    } else if f == 10 {
        lemma_away_at(vtx, 50, 5257, 8507, 0);
    } else if f == 11 {
        lemma_away_at(vtx, 55, 0, 5257, 8507);
    } else if f == 12 {
        lemma_away_at(vtx, 3, -5774, -5774, -5774);
    } else if f == 13 {
        lemma_away_at(vtx, 2, 0, -9342, -3568);
    } else if f == 14 {
        lemma_away_at(vtx, 1, 5774, -5774, -5774);
    } else if f == 15 {
        lemma_away_at(vtx, 0, 3568, 0, -9342);
    }
}

/// Planes 16 to 31 of the centred truncated icosahedron look outward.
proof fn lemma_c60_center_planes_16(f: int)
    requires
        16 <= f < 32,
    ensures
        plane_away(C60_CENTER_VTX@, C60_POLYGONS@, C60_PLANES@, f) > 0,
{
    let vtx = C60_CENTER_VTX@;
    lemma_c60_center_sums();
    lemma_c60_faces(92);
    assert(away_at(-5393, -6667, -14120, -3568, 0, -9342, 92, 0, 0, 0) > 0
        && away_at(-10787, 3333, -12060, -5774, 5774, -5774, 92, 0, 0, 0) > 0
        && away_at(-16180, 0, -3333, -9342, 3568, 0, 92, 0, 0, 0) > 0
        && away_at(-12060, -10787, -3333, -9342, -3568, 0, 92, 0, 0, 0) > 0
        && away_at(-6667, -14120, 5393, -5774, -5774, 5774, 92, 0, 0, 0) > 0
        && away_at(3333, -16180, 0, 0, -9342, 3568, 92, 0, 0, 0) > 0
        && away_at(12060, -10787, 3333, 5774, -5774, 5774, 92, 0, 0, 0) > 0
        && away_at(14120, -5393, -6667, 9342, -3568, 0, 92, 0, 0, 0) > 0
        && away_at(14120, 5393, -6667, 9342, 3568, 0, 92, 0, 0, 0) > 0
        && away_at(5393, 6667, -14120, 5774, 5774, -5774, 92, 0, 0, 0) > 0
        && away_at(-3333, 12060, -10787, 0, 9342, -3568, 92, 0, 0, 0) > 0
        && away_at(-3333, 16180, 0, 0, 9342, 3568, 92, 0, 0, 0) > 0
        && away_at(-14120, 5393, 6667, -5774, 5774, 5774, 92, 0, 0, 0) > 0
        && away_at(-5393, -6667, 14120, -3568, 0, 9342, 92, 0, 0, 0) > 0
        && away_at(10787, -3333, 12060, 3568, 0, 9342, 92, 0, 0, 0) > 0
        && away_at(12060, 10787, 3333, 5774, 5774, 5774, 92, 0, 0, 0) > 0) by (nonlinear_arith);
    if f == 16 {
        lemma_away_at(vtx, 4, -3568, 0, -9342);
    } else if f == 17 {
        lemma_away_at(vtx, 7, -5774, 5774, -5774);
    } else if f == 18 {
        lemma_away_at(vtx, 5, -9342, 3568, 0);
    } else if f == 19 {
        lemma_away_at(vtx, 13, -9342, -3568, 0);
    } else if f == 20 {
        lemma_away_at(vtx, 11, -5774, -5774, 5774);
    } else if f == 21 {
        lemma_away_at(vtx, 15, 0, -9342, 3568);
    } else if f == 22 {
        lemma_away_at(vtx, 18, 5774, -5774, 5774);
    } else if f == 23 {
        lemma_away_at(vtx, 21, 9342, -3568, 0);
    } else if f == 24 {
        lemma_away_at(vtx, 24, 9342, 3568, 0);
    } else if f == 25 {
        lemma_away_at(vtx, 29, 5774, 5774, -5774);
    } else if f == 26 {
        lemma_away_at(vtx, 27, 0, 9342, -3568);
    } else if f == 27 {
        lemma_away_at(vtx, 30, 0, 9342, 3568);
    } else if f == 28 {
        lemma_away_at(vtx, 39, -5774, 5774, 5774);
    } else if f == 29 {
        lemma_away_at(vtx, 41, -3568, 0, 9342);
    } else if f == 30 {
        lemma_away_at(vtx, 48, 3568, 0, 9342);
    } else if f == 31 {
        lemma_away_at(vtx, 52, 5774, 5774, 5774);
    }
}

/// The table of the centred truncated icosahedron is the descriptor of a solid whose faces look
/// outward.
pub proof fn lemma_c60_center_table()
    ensures
        buffers_valid(C60_CENTER_VTX@, C60_CENTER_INDICES@, C60_PLANES@, C60_POLYGONS@),
{
    let vtx = C60_CENTER_VTX@;
    let indices = C60_CENTER_INDICES@;
    let planes = C60_PLANES@;
    let polygons = C60_POLYGONS@;
    lemma_c60_faces(92);
    assert(coord(vtx, 1, 0) != coord(vtx, 0, 0));
    assert(coord(vtx, 1, 1) != coord(vtx, 0, 1));
    assert(coord(vtx, 1, 2) != coord(vtx, 0, 2));
    assert forall|t: int| 0 <= t < 180 implies #[trigger] triangle_lean(vtx, indices, t) > 0 by {
        if t < 16 {
            lemma_c60_center_triangles_0(t);
        } else if t < 32 {
            lemma_c60_center_triangles_16(t);
        } else if t < 48 {
            lemma_c60_center_triangles_32(t);
        } else if t < 64 {
            lemma_c60_center_triangles_48(t);
        } else if t < 80 {
            lemma_c60_center_triangles_64(t);
        } else if t < 96 {
            lemma_c60_center_triangles_80(t);
        } else if t < 112 {
            lemma_c60_center_triangles_96(t);
        } else if t < 128 {
            lemma_c60_center_triangles_112(t);
        } else if t < 144 {
            lemma_c60_center_triangles_128(t);
        } else if t < 160 {
            lemma_c60_center_triangles_144(t);
        } else if t < 176 {
            lemma_c60_center_triangles_160(t);
        } else if t < 180 {
            lemma_c60_center_triangles_176(t);
        }
    }
    assert forall|f: int| 0 <= f < 32 implies #[trigger] plane_away(vtx, polygons, planes, f) > 0 by {
        if f < 16 {
            lemma_c60_center_planes_0(f);
        } else if f < 32 {
            lemma_c60_center_planes_16(f);
        }
    }
}

} // verus!
