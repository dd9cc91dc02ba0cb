use c60::geometry::{GeometryError, Polyhedron};
use c60::solids::MAX_SCALE;

fn tetra(scale: u32) -> Polyhedron {
    let mut p = Polyhedron::void();
    assert_eq!(p.from_phf(scale), Ok(()));
    p
}

#[test]
fn void_is_empty() {
    let p = Polyhedron::void();
    assert!(p.indices.is_empty() && p.planes.is_empty() && p.vtx.is_empty() && p.polygons.is_empty());
    assert_eq!(p.r, 100);
    assert_eq!(p.check(), Err(GeometryError::Empty));
    assert_eq!(p.check_shape(), Err(GeometryError::Empty));
}

#[test]
fn tetra_at_unit_scale() {
    let p = tetra(100);
    assert_eq!(p.vtx, vec![557700, -149400, -204100, -149400, 557700, -204100, 0, 0, 612400, -408200, -408200, -204100]);
    assert_eq!(p.indices, vec![3, 1, 0, 3, 2, 1, 3, 0, 2, 2, 0, 1]);
    assert_eq!(p.polygons, vec![3, 3, 1, 0, 3, 3, 2, 1, 3, 3, 0, 2, 3, 2, 0, 1]);
    assert_eq!(
        p.planes,
        vec![0, 0, -10000, 204100, -9107, 2440, 3333, 204100, 2440, -9107, 3333, 204100, 6667, 6667, 3334, 204200]
    );
    assert_eq!(p.r, 100);
    assert_eq!(p.check(), Ok(()));
    assert_eq!(p.check_as(true), Ok(()));
    assert_eq!(p.check_as(false), Ok(()));
}

#[test]
fn tetra_is_valid_at_every_scale_tried() {
    for scale in [1, 2, 20, 99, 100, 101, 2500, MAX_SCALE] {
        let p = tetra(scale);
        assert_eq!(p.check(), Ok(()));
        assert_eq!(p.r, scale);
        assert_eq!(p.vtx[0], 5577 * scale as i32);
        for index in &p.indices {
            assert!((*index as usize) < p.vtx.len() / 3);
        }
    }
}

#[test]
fn scale_out_of_range_is_refused() {
    let mut p = tetra(100);
    let before = p.vtx.clone();
    assert_eq!(p.from_phf(0), Err(GeometryError::Scale));
    assert_eq!(p.from_phf(MAX_SCALE + 1), Err(GeometryError::Scale));
    assert_eq!(p.vtx, before);
    assert_eq!(p.r, 100);
}

#[test]
fn ragged_buffers() {
    let mut p = tetra(100);
    p.vtx.push(1);
    assert_eq!(p.check(), Err(GeometryError::Ragged));
    let mut p = tetra(100);
    p.indices.pop();
    assert_eq!(p.check(), Err(GeometryError::Ragged));
    let mut p = tetra(100);
    p.planes.pop();
    assert_eq!(p.check(), Err(GeometryError::Ragged));
    let mut p = tetra(100);
    p.planes.extend([0, 0, 1, 0]);
    assert_eq!(p.check(), Err(GeometryError::Ragged));
}

#[test]
fn empty_buffers() {
    let mut p = tetra(100);
    p.indices.clear();
    assert_eq!(p.check(), Err(GeometryError::Empty));
    let mut p = tetra(100);
    p.polygons.clear();
    assert_eq!(p.check(), Err(GeometryError::Empty));
    let mut p = tetra(100);
    p.vtx.clear();
    assert_eq!(p.check(), Err(GeometryError::Empty));
}

#[test]
fn coordinate_out_of_range() {
    let mut p = tetra(100);
    p.vtx[4] = 0x4000_0000;
    assert_eq!(p.check(), Err(GeometryError::Range));
    let mut p = tetra(100);
    p.vtx[4] = -0x4000_0000;
    assert_eq!(p.check(), Err(GeometryError::Range));
    let mut p = tetra(100);
    p.vtx[4] = i32::MIN;
    assert_eq!(p.check_shape(), Err(GeometryError::Range));
}

#[test]
fn index_without_vertex() {
    let mut p = tetra(100);
    p.indices[5] = 4;
    assert_eq!(p.check(), Err(GeometryError::Index));
    assert_eq!(p.check_shape(), Err(GeometryError::Index));
}

#[test]
fn broken_face_list() {
    let mut p = tetra(100);
    p.polygons[0] = 2;
    assert_eq!(p.check(), Err(GeometryError::Polygon));
    let mut p = tetra(100);
    p.polygons[12] = 4;
    assert_eq!(p.check(), Err(GeometryError::Polygon));
    let mut p = tetra(100);
    p.polygons[14] = 9;
    assert_eq!(p.check(), Err(GeometryError::Polygon));
    let mut p = tetra(100);
    p.polygons.push(3);
    assert_eq!(p.check(), Err(GeometryError::Polygon));
}

#[test]
fn flat_solid() {
    let mut p = tetra(100);
    for v in 0..4 {
        p.vtx[3 * v + 2] = 7;
    }
    assert_eq!(p.check(), Err(GeometryError::Flat));
    assert_eq!(p.check_shape(), Err(GeometryError::Flat));
}

#[test]
fn inward_triangle_and_plane() {
    let mut p = tetra(100);
    p.indices.swap(0, 1);
    assert_eq!(p.check(), Err(GeometryError::Inward));
    assert_eq!(p.check_shape(), Ok(()));
    assert_eq!(p.check_as(true), Err(GeometryError::Inward));
    assert_eq!(p.check_as(false), Ok(()));
    let mut p = tetra(100);
    p.planes[2] = 10000;
    assert_eq!(p.check(), Err(GeometryError::Inward));
    let mut p = tetra(100);
    p.planes[4] = 0;
    p.planes[5] = 0;
    p.planes[6] = 0;
    assert_eq!(p.check(), Err(GeometryError::Inward));
}

#[test]
fn five_corner_face_is_read() {
    // a square pyramid: four triangles and a square
    let p = Polyhedron {
        vtx: vec![100, 100, 0, -100, 100, 0, -100, -100, 0, 100, -100, 0, 0, 0, 200],
        indices: vec![0, 1, 4, 1, 2, 4, 2, 3, 4, 3, 0, 4, 0, 3, 2, 0, 2, 1],
        polygons: vec![3, 0, 1, 4, 3, 1, 2, 4, 3, 2, 3, 4, 3, 3, 0, 4, 4, 0, 3, 2, 1],
        planes: vec![0, 2, 1, 0, -2, 0, 1, 0, 0, -2, 1, 0, 2, 0, 1, 0, 0, 0, -1, 0],
        r: 100,
    };
    assert_eq!(p.check(), Ok(()));
}
