use c60::fullerene::{C60_CENTER_INDICES, C60_CENTER_VTX, C60_INDICES, C60_PLANES, C60_POLYGONS, C60_VTX};
use c60::generator::{generate, is_tabled};
use c60::geometry::{GeometryError, Polyhedron};
use c60::kind::{KIND_COUNT, PE};
use c60::platonic::{CUBE_CENTER_INDICES, CUBE_INDICES, CUBE_POLYGONS, CUBE_VTX, ICOSA_VTX, OCTA_INDICES, OCTA_VTX};
use c60::solids::{MAX_SCALE, TETRA_VTX};

fn counts(p: &Polyhedron) -> (usize, usize, usize) {
    (p.vtx.len() / 3, p.indices.len() / 3, p.planes.len() / 4)
}

#[test]
fn solids_with_tables() {
    let tabled: Vec<PE> = (0..KIND_COUNT).map(|u| PE::from_usize(u).unwrap()).filter(|k| is_tabled(*k)).collect();
    assert_eq!(
        tabled,
        vec![
            PE::ETetra,
            PE::ECube,
            PE::ECubeCenter,
            PE::EOcta,
            PE::EIcosahedronN0,
            PE::EIcosahedronN1,
            PE::EDodecahedronN0,
            PE::EDodecahedronN1,
            PE::EDodecahedronCenterN0,
            PE::EDodecahedronCenterN1,
            PE::EC60N0,
            PE::EC60N1,
            PE::EC60CenterN0,
            PE::EC60CenterN1
        ]
    );
    assert!(!is_tabled(PE::End));
}

#[test]
fn every_table_gives_a_valid_descriptor_at_every_scale_tried() {
    for u in 0..KIND_COUNT {
        let kind = PE::from_usize(u).unwrap();
        for scale in [1, 7, 20, 100, 999, MAX_SCALE] {
            match generate(kind, scale) {
                Ok(p) => {
                    assert!(is_tabled(kind));
                    assert_eq!(p.check(), Ok(()));
                    assert_eq!(p.check_as(kind.star_shaped()), Ok(()));
                    assert!(kind.star_shaped());
                    assert_eq!(p.r, scale);
                    let count = p.vtx.len() / 3;
                    assert!(p.indices.iter().all(|i| (*i as usize) < count));
                }
                Err(e) => {
                    assert!(!is_tabled(kind));
                    assert_eq!(e, GeometryError::NoTable);
                }
            }
        }
    }
}

#[test]
fn scale_is_looked_at_first() {
    for u in 0..KIND_COUNT {
        let kind = PE::from_usize(u).unwrap();
        assert_eq!(generate(kind, 0).err(), Some(GeometryError::Scale));
        assert_eq!(generate(kind, MAX_SCALE + 1).err(), Some(GeometryError::Scale));
        assert_eq!(generate(kind, u32::MAX).err(), Some(GeometryError::Scale));
    }
    assert_eq!(generate(PE::End, 100).err(), Some(GeometryError::NoTable));
    assert_eq!(generate(PE::ERSphere, 100).err(), Some(GeometryError::NoTable));
    assert_eq!(generate(PE::EPin, 100).err(), Some(GeometryError::NoTable));
}

#[test]
fn sizes_of_the_solids() {
    assert_eq!(counts(&generate(PE::ETetra, 100).unwrap()), (4, 4, 4));
    assert_eq!(counts(&generate(PE::ECube, 100).unwrap()), (24, 12, 6));
    assert_eq!(counts(&generate(PE::ECubeCenter, 100).unwrap()), (30, 24, 6));
    assert_eq!(counts(&generate(PE::EOcta, 100).unwrap()), (6, 8, 8));
    assert_eq!(counts(&generate(PE::EIcosahedronN0, 100).unwrap()), (12, 20, 20));
    assert_eq!(counts(&generate(PE::EDodecahedronN0, 100).unwrap()), (20, 36, 12));
    assert_eq!(counts(&generate(PE::EDodecahedronCenterN0, 100).unwrap()), (32, 60, 12));
    assert_eq!(counts(&generate(PE::EC60N0, 100).unwrap()), (60, 116, 32));
    assert_eq!(counts(&generate(PE::EC60CenterN0, 100).unwrap()), (92, 180, 32));
}

#[test]
fn coordinates_are_the_table_times_the_scale() {
    let p = generate(PE::ETetra, 3).unwrap();
    assert_eq!(p.vtx, TETRA_VTX.iter().map(|c| c * 3).collect::<Vec<i32>>());
    let p = generate(PE::ECube, 20).unwrap();
    assert_eq!(p.vtx, CUBE_VTX.iter().map(|c| c * 20).collect::<Vec<i32>>());
    assert_eq!(p.indices, CUBE_INDICES.to_vec());
    assert_eq!(p.polygons, CUBE_POLYGONS.to_vec());
    assert_eq!(p.planes, vec![10000, 0, 0, 200000, -10000, 0, 0, 200000, 0, 10000, 0, 200000, 0, -10000, 0, 200000, 0, 0, 10000, 200000, 0, 0, -10000, 200000]);
    let p = generate(PE::EOcta, 100).unwrap();
    assert_eq!(p.vtx, OCTA_VTX.iter().map(|c| c * 100).collect::<Vec<i32>>());
    assert_eq!(p.vtx, vec![1000000, 0, 0, -1000000, 0, 0, 0, 1000000, 0, 0, -1000000, 0, 0, 0, 1000000, 0, 0, -1000000]);
    assert_eq!(p.indices, OCTA_INDICES.to_vec());
    let p = generate(PE::EIcosahedronN1, 100).unwrap();
    assert_eq!(&p.vtx[..3], &[0, -1000000, -1618000]);
    assert_eq!(p.vtx[2], ICOSA_VTX[2] * 100);
    let p = generate(PE::EC60N0, 50).unwrap();
    assert_eq!(p.vtx, C60_VTX.iter().map(|c| c * 50).collect::<Vec<i32>>());
    assert_eq!(p.indices, C60_INDICES.to_vec());
    assert_eq!(p.polygons, C60_POLYGONS.to_vec());
    assert_eq!(p.planes[3], C60_PLANES[3] * 50);
    assert_eq!(p.planes[0], C60_PLANES[0]);
}

#[test]
fn both_solids_of_a_pair_have_one_mesh() {
    for (a, b) in [
        (PE::EIcosahedronN0, PE::EIcosahedronN1),
        (PE::EDodecahedronN0, PE::EDodecahedronN1),
        (PE::EDodecahedronCenterN0, PE::EDodecahedronCenterN1),
        (PE::EC60N0, PE::EC60N1),
        (PE::EC60CenterN0, PE::EC60CenterN1),
    ] {
        let (p, q) = (generate(a, 20).unwrap(), generate(b, 20).unwrap());
        assert_eq!(p.vtx, q.vtx);
        assert_eq!(p.indices, q.indices);
        assert_eq!(p.planes, q.planes);
        assert_eq!(p.polygons, q.polygons);
    }
}

#[test]
fn centred_solids_keep_the_faces_of_the_hull() {
    for (plain, centred, faces) in [
        (PE::ECube, PE::ECubeCenter, 6),
        (PE::EDodecahedronN0, PE::EDodecahedronCenterN0, 12),
        (PE::EC60N0, PE::EC60CenterN0, 32),
    ] {
        let (p, c) = (generate(plain, 100).unwrap(), generate(centred, 100).unwrap());
        assert_eq!(p.polygons, c.polygons);
        assert_eq!(p.planes, c.planes);
        assert_eq!(&c.vtx[..p.vtx.len()], &p.vtx[..]);
        assert_eq!(c.vtx.len(), p.vtx.len() + faces * 3);
        // one triangle for each edge of each face, all from the centre of the face
        let edges: usize = {
            let mut at = 0;
            let mut n = 0;
            while at < c.polygons.len() {
                n += c.polygons[at] as usize;
                at += 1 + c.polygons[at] as usize;
            }
            n
        };
        assert_eq!(c.indices.len(), edges * 3);
        let first_center = (p.vtx.len() / 3) as u32;
        for t in 0..edges {
            assert!(c.indices[3 * t] >= first_center);
            assert!(c.indices[3 * t + 1] < first_center && c.indices[3 * t + 2] < first_center);
        }
    }
    assert_eq!(CUBE_CENTER_INDICES.len(), 24 * 3);
    assert_eq!(C60_CENTER_INDICES.len(), 180 * 3);
    assert_eq!(C60_CENTER_VTX.len(), 92 * 3);
}
