//! The mesh generator: from a solid and a scale to its descriptor. The
//! solids with flat faces come from tables; a table scaled by a whole
//! factor keeps every rule of a descriptor, so what is generated is valid.
//! Solids of revolution have no table: their meshes are made elsewhere and
//! held to the rules when they are stored.

use vstd::prelude::*;
use crate::geometry::{buffers_valid, GeometryError, Polyhedron};
use crate::kind::PE;
use crate::solids::{fill, planes_scaled, scaled, MAX_BASE, MAX_SCALE};
use crate::dodecahedron::{DODECA_CENTER_INDICES, DODECA_CENTER_VTX, DODECA_INDICES, DODECA_PLANES, DODECA_POLYGONS, DODECA_VTX, lemma_dodeca_center_table, lemma_dodeca_table};
use crate::fullerene::{C60_CENTER_INDICES, C60_CENTER_VTX, C60_INDICES, C60_PLANES, C60_POLYGONS, C60_VTX, lemma_c60_center_table, lemma_c60_table};
use crate::platonic::{CUBE_CENTER_INDICES, CUBE_CENTER_VTX, CUBE_INDICES, CUBE_PLANES, CUBE_POLYGONS, CUBE_VTX, ICOSA_INDICES, ICOSA_PLANES, ICOSA_POLYGONS, ICOSA_VTX, OCTA_INDICES, OCTA_PLANES, OCTA_POLYGONS, OCTA_VTX, lemma_cube_center_table, lemma_cube_table, lemma_icosa_table, lemma_octa_table};
use crate::solids::{TETRA_INDICES, TETRA_PLANES, TETRA_POLYGONS, TETRA_VTX, lemma_tetra_table};

verus! {

/// Whether the library holds a table of the solid.
pub open spec fn has_table(kind: PE) -> bool {
    match kind {
        PE::ETetra | PE::ECube | PE::ECubeCenter | PE::EOcta | PE::EIcosahedronN0 | PE::EIcosahedronN1 | PE::EDodecahedronN0 | PE::EDodecahedronN1 | PE::EDodecahedronCenterN0 | PE::EDodecahedronCenterN1 | PE::EC60N0 | PE::EC60N1 | PE::EC60CenterN0 | PE::EC60CenterN1 => true,
        _ => false,
    }
}

/// The vertices of the table of a solid.
pub open spec fn table_vtx(kind: PE) -> Seq<i32> {
    match kind {
        PE::ETetra => TETRA_VTX@,
        PE::ECube => CUBE_VTX@,
        PE::ECubeCenter => CUBE_CENTER_VTX@,
        PE::EOcta => OCTA_VTX@,
        PE::EIcosahedronN0 | PE::EIcosahedronN1 => ICOSA_VTX@,
        PE::EDodecahedronN0 | PE::EDodecahedronN1 => DODECA_VTX@,
        PE::EDodecahedronCenterN0 | PE::EDodecahedronCenterN1 => DODECA_CENTER_VTX@,
        PE::EC60N0 | PE::EC60N1 => C60_VTX@,
        PE::EC60CenterN0 | PE::EC60CenterN1 => C60_CENTER_VTX@,
        _ => Seq::empty(),
    }
}

/// The triangles of the table of a solid.
pub open spec fn table_indices(kind: PE) -> Seq<u32> {
    match kind {
        PE::ETetra => TETRA_INDICES@,
        PE::ECube => CUBE_INDICES@,
        PE::ECubeCenter => CUBE_CENTER_INDICES@,
        PE::EOcta => OCTA_INDICES@,
        PE::EIcosahedronN0 | PE::EIcosahedronN1 => ICOSA_INDICES@,
        PE::EDodecahedronN0 | PE::EDodecahedronN1 => DODECA_INDICES@,
        PE::EDodecahedronCenterN0 | PE::EDodecahedronCenterN1 => DODECA_CENTER_INDICES@,
        PE::EC60N0 | PE::EC60N1 => C60_INDICES@,
        PE::EC60CenterN0 | PE::EC60CenterN1 => C60_CENTER_INDICES@,
        _ => Seq::empty(),
    }
}

/// The face planes of the table of a solid.
pub open spec fn table_planes(kind: PE) -> Seq<i32> {
    match kind {
        PE::ETetra => TETRA_PLANES@,
        PE::ECube | PE::ECubeCenter => CUBE_PLANES@,
        PE::EOcta => OCTA_PLANES@,
        PE::EIcosahedronN0 | PE::EIcosahedronN1 => ICOSA_PLANES@,
        PE::EDodecahedronN0 | PE::EDodecahedronN1 | PE::EDodecahedronCenterN0 | PE::EDodecahedronCenterN1 => DODECA_PLANES@,
        PE::EC60N0 | PE::EC60N1 | PE::EC60CenterN0 | PE::EC60CenterN1 => C60_PLANES@,
        _ => Seq::empty(),
    }
}

/// The faces of the table of a solid.
pub open spec fn table_polygons(kind: PE) -> Seq<u32> {
    match kind {
        PE::ETetra => TETRA_POLYGONS@,
        PE::ECube | PE::ECubeCenter => CUBE_POLYGONS@,
        PE::EOcta => OCTA_POLYGONS@,
        PE::EIcosahedronN0 | PE::EIcosahedronN1 => ICOSA_POLYGONS@,
        PE::EDodecahedronN0 | PE::EDodecahedronN1 | PE::EDodecahedronCenterN0 | PE::EDodecahedronCenterN1 => DODECA_POLYGONS@,
        PE::EC60N0 | PE::EC60N1 | PE::EC60CenterN0 | PE::EC60CenterN1 => C60_POLYGONS@,
        _ => Seq::empty(),
    }
}

/// Whether `mesh` is the table of `kind` at `scale` hundredths: every
/// coordinate and every plane offset of the table times the scale, the
/// plane normals, the triangles and the faces of the table as they stand.
pub closed spec fn generated(kind: PE, scale: u32, mesh: &Polyhedron) -> bool {
    &&& scaled(table_vtx(kind), mesh.vtx@, scale as int)
    &&& planes_scaled(table_planes(kind), mesh.planes@, scale as int)
    &&& mesh.indices@ == table_indices(kind)
    &&& mesh.polygons@ == table_polygons(kind)
    &&& mesh.r == scale
}

/// What it is to be the table of a solid at a scale.
pub proof fn lemma_generated(kind: PE, scale: u32, mesh: &Polyhedron)
    ensures
        generated(kind, scale, mesh) <==> {
            &&& scaled(table_vtx(kind), mesh.vtx@, scale as int)
            &&& planes_scaled(table_planes(kind), mesh.planes@, scale as int)
            &&& mesh.indices@ == table_indices(kind)
            &&& mesh.polygons@ == table_polygons(kind)
            &&& mesh.r == scale
        },
{
}

/// Two meshes that are the table of one solid at one scale agree in every
/// buffer.
pub proof fn lemma_generated_is_one(kind: PE, scale: u32, a: &Polyhedron, b: &Polyhedron)
    requires
        generated(kind, scale, a),
        generated(kind, scale, b),
    ensures
        a.vtx@ == b.vtx@,
        a.planes@ == b.planes@,
        a.indices@ == b.indices@,
        a.polygons@ == b.polygons@,
        a.r == b.r,
{
    assert(a.vtx@ =~= b.vtx@);
    assert(a.planes@ =~= b.planes@);
}

/// A solid that has a table is a star-shaped solid.
pub proof fn lemma_tabled_is_star_shaped(kind: PE)
    requires
        has_table(kind),
    ensures
        kind.star_shaped_spec(),
        kind.is_solid(),
{
}

/// The table of every solid that has one is a valid descriptor, and so is
/// the table at every scale from one to `MAX_SCALE`: all its indices name
/// vertices, and all its triangles and plane normals point away from the
/// centroid. Both solids of a pair have one table: how a solid is textured
/// does not touch its mesh.
pub proof fn lemma_tables(kind: PE)
    requires
        has_table(kind),
    ensures
        buffers_valid(table_vtx(kind), table_indices(kind), table_planes(kind), table_polygons(kind)),
        forall|scale: u32, mesh: &Polyhedron|
            1 <= scale <= MAX_SCALE && #[trigger] generated(kind, scale, mesh) && crate::geometry::in_range(mesh.vtx@)
                ==> mesh.valid(),
{
    lemma_tables_valid(kind);
    assert forall|scale: u32, mesh: &Polyhedron|
        1 <= scale <= MAX_SCALE && #[trigger] generated(kind, scale, mesh) && crate::geometry::in_range(
            mesh.vtx@,
        ) implies mesh.valid() by {
        crate::solids::lemma_scaling_keeps_valid(
            table_vtx(kind),
            table_indices(kind),
            table_planes(kind),
            table_polygons(kind),
            scale as int,
            mesh.vtx@,
            mesh.planes@,
        );
    }
}

/// The table of every solid that has one is a valid descriptor.
proof fn lemma_tables_valid(kind: PE)
    requires
        has_table(kind),
    ensures
        buffers_valid(table_vtx(kind), table_indices(kind), table_planes(kind), table_polygons(kind)),
{
    match kind {
        PE::ETetra => lemma_tetra_table(),
        PE::ECube => lemma_cube_table(),
        PE::ECubeCenter => lemma_cube_center_table(),
        PE::EOcta => lemma_octa_table(),
        PE::EIcosahedronN0 => lemma_icosa_table(),
        PE::EIcosahedronN1 => lemma_icosa_table(),
        PE::EDodecahedronN0 => lemma_dodeca_table(),
        PE::EDodecahedronN1 => lemma_dodeca_table(),
        PE::EDodecahedronCenterN0 => lemma_dodeca_center_table(),
        PE::EDodecahedronCenterN1 => lemma_dodeca_center_table(),
        PE::EC60N0 => lemma_c60_table(),
        PE::EC60N1 => lemma_c60_table(),
        PE::EC60CenterN0 => lemma_c60_center_table(),
        PE::EC60CenterN1 => lemma_c60_center_table(),
        _ => {},
    }
}

/// The entries of the table of a solid are in the range of tables.
proof fn lemma_tetra_bounds()
    ensures
        forall|i: int| 0 <= i < TETRA_VTX@.len() ==> -MAX_BASE <= #[trigger] TETRA_VTX@[i] <= MAX_BASE,
        forall|i: int| 0 <= i < TETRA_PLANES@.len() ==> -MAX_BASE <= #[trigger] TETRA_PLANES@[i] <= MAX_BASE,
{
}

/// The entries of the table of a solid are in the range of tables.
proof fn lemma_cube_bounds()
    ensures
        forall|i: int| 0 <= i < CUBE_VTX@.len() ==> -MAX_BASE <= #[trigger] CUBE_VTX@[i] <= MAX_BASE,
        forall|i: int| 0 <= i < CUBE_PLANES@.len() ==> -MAX_BASE <= #[trigger] CUBE_PLANES@[i] <= MAX_BASE,
{
}

/// The entries of the table of a solid are in the range of tables.
proof fn lemma_cube_center_bounds()
    ensures
        forall|i: int| 0 <= i < CUBE_CENTER_VTX@.len() ==> -MAX_BASE <= #[trigger] CUBE_CENTER_VTX@[i] <= MAX_BASE,
        forall|i: int| 0 <= i < CUBE_PLANES@.len() ==> -MAX_BASE <= #[trigger] CUBE_PLANES@[i] <= MAX_BASE,
{
}

/// The entries of the table of a solid are in the range of tables.
proof fn lemma_octa_bounds()
    ensures
        forall|i: int| 0 <= i < OCTA_VTX@.len() ==> -MAX_BASE <= #[trigger] OCTA_VTX@[i] <= MAX_BASE,
        forall|i: int| 0 <= i < OCTA_PLANES@.len() ==> -MAX_BASE <= #[trigger] OCTA_PLANES@[i] <= MAX_BASE,
{
}

/// The entries of the table of a solid are in the range of tables.
proof fn lemma_icosa_bounds()
    ensures
        forall|i: int| 0 <= i < ICOSA_VTX@.len() ==> -MAX_BASE <= #[trigger] ICOSA_VTX@[i] <= MAX_BASE,
        forall|i: int| 0 <= i < ICOSA_PLANES@.len() ==> -MAX_BASE <= #[trigger] ICOSA_PLANES@[i] <= MAX_BASE,
{
}

/// The entries of the table of a solid are in the range of tables.
proof fn lemma_dodeca_bounds()
    ensures
        forall|i: int| 0 <= i < DODECA_VTX@.len() ==> -MAX_BASE <= #[trigger] DODECA_VTX@[i] <= MAX_BASE,
        forall|i: int| 0 <= i < DODECA_PLANES@.len() ==> -MAX_BASE <= #[trigger] DODECA_PLANES@[i] <= MAX_BASE,
{
}

/// The entries of the table of a solid are in the range of tables.
proof fn lemma_dodeca_center_bounds()
    ensures
        forall|i: int| 0 <= i < DODECA_CENTER_VTX@.len() ==> -MAX_BASE <= #[trigger] DODECA_CENTER_VTX@[i] <= MAX_BASE,
        forall|i: int| 0 <= i < DODECA_PLANES@.len() ==> -MAX_BASE <= #[trigger] DODECA_PLANES@[i] <= MAX_BASE,
{
}

/// The entries of the table of a solid are in the range of tables.
proof fn lemma_c60_bounds()
    ensures
        forall|i: int| 0 <= i < C60_VTX@.len() ==> -MAX_BASE <= #[trigger] C60_VTX@[i] <= MAX_BASE,
        forall|i: int| 0 <= i < C60_PLANES@.len() ==> -MAX_BASE <= #[trigger] C60_PLANES@[i] <= MAX_BASE,
{
}

/// The entries of the table of a solid are in the range of tables.
proof fn lemma_c60_center_bounds()
    ensures
        forall|i: int| 0 <= i < C60_CENTER_VTX@.len() ==> -MAX_BASE <= #[trigger] C60_CENTER_VTX@[i] <= MAX_BASE,
        forall|i: int| 0 <= i < C60_PLANES@.len() ==> -MAX_BASE <= #[trigger] C60_PLANES@[i] <= MAX_BASE,
{
}

/// Whether the library holds a table of the solid.
pub fn is_tabled(kind: PE) -> (r: bool)
    ensures
        r == has_table(kind),
{
    match kind {
        PE::ETetra | PE::ECube | PE::ECubeCenter | PE::EOcta | PE::EIcosahedronN0 | PE::EIcosahedronN1 | PE::EDodecahedronN0 | PE::EDodecahedronN1 | PE::EDodecahedronCenterN0 | PE::EDodecahedronCenterN1 | PE::EC60N0 | PE::EC60N1 | PE::EC60CenterN0 | PE::EC60CenterN1 => true,
        _ => false,
    }
}

/// The descriptor of `kind` at `scale` hundredths of its base size. `Err`
/// for a scale of zero or above `MAX_SCALE`, and for a solid without a
/// table; else the table of the solid, every coordinate and every plane
/// offset times the scale: a valid descriptor.
pub fn generate(kind: PE, scale: u32) -> (r: Result<Polyhedron, GeometryError>)
    ensures
        r is Ok <==> 1 <= scale <= MAX_SCALE && has_table(kind),
        r is Err ==> r->Err_0 == (if 1 <= scale <= MAX_SCALE {
            GeometryError::NoTable
        } else {
            GeometryError::Scale
        }),
        r is Ok ==> generated(kind, scale, &r->Ok_0) && r->Ok_0.valid(),
{
    if scale < 1 || scale > MAX_SCALE {
        return Err(GeometryError::Scale);
    }
    let mut ph = Polyhedron::void();
    match kind {
            PE::ETetra => {
                proof {
                    lemma_tetra_table();
                    lemma_tetra_bounds();
                }
                fill(&mut ph, &TETRA_VTX, &TETRA_INDICES, &TETRA_PLANES, &TETRA_POLYGONS, scale);
            },
            PE::ECube => {
                proof {
                    lemma_cube_table();
                    lemma_cube_bounds();
                }
                fill(&mut ph, &CUBE_VTX, &CUBE_INDICES, &CUBE_PLANES, &CUBE_POLYGONS, scale);
            },
            PE::ECubeCenter => {
                proof {
                    lemma_cube_center_table();
                    lemma_cube_center_bounds();
                }
                fill(&mut ph, &CUBE_CENTER_VTX, &CUBE_CENTER_INDICES, &CUBE_PLANES, &CUBE_POLYGONS, scale);
            },
            PE::EOcta => {
                proof {
                    lemma_octa_table();
                    lemma_octa_bounds();
                }
                fill(&mut ph, &OCTA_VTX, &OCTA_INDICES, &OCTA_PLANES, &OCTA_POLYGONS, scale);
            },
            PE::EIcosahedronN0 | PE::EIcosahedronN1 => {
                proof {
                    lemma_icosa_table();
                    lemma_icosa_bounds();
                }
                fill(&mut ph, &ICOSA_VTX, &ICOSA_INDICES, &ICOSA_PLANES, &ICOSA_POLYGONS, scale);
            },
            PE::EDodecahedronN0 | PE::EDodecahedronN1 => {
                proof {
                    lemma_dodeca_table();
                    lemma_dodeca_bounds();
                }
                fill(&mut ph, &DODECA_VTX, &DODECA_INDICES, &DODECA_PLANES, &DODECA_POLYGONS, scale);
            },
            PE::EDodecahedronCenterN0 | PE::EDodecahedronCenterN1 => {
                proof {
                    lemma_dodeca_center_table();
                    lemma_dodeca_center_bounds();
                }
                fill(&mut ph, &DODECA_CENTER_VTX, &DODECA_CENTER_INDICES, &DODECA_PLANES, &DODECA_POLYGONS, scale);
            },
            PE::EC60N0 | PE::EC60N1 => {
                proof {
                    lemma_c60_table();
                    lemma_c60_bounds();
                }
                fill(&mut ph, &C60_VTX, &C60_INDICES, &C60_PLANES, &C60_POLYGONS, scale);
            },
            PE::EC60CenterN0 | PE::EC60CenterN1 => {
                proof {
                    lemma_c60_center_table();
                    lemma_c60_center_bounds();
                }
                fill(&mut ph, &C60_CENTER_VTX, &C60_CENTER_INDICES, &C60_PLANES, &C60_POLYGONS, scale);
            },
        _ => {
            return Err(GeometryError::NoTable);
        },
    }
    Ok(ph)
}

} // verus!
