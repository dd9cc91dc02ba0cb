use c60::cache::SlotCache;
use c60::dodecahedron::{Dodecahedron, DODECA_CENTER_INDICES, DODECA_CENTER_VTX, DODECA_INDICES, DODECA_POLYGONS, DODECA_VTX};
use c60::geometry::GeometryError;
use c60::kind::PE;
use c60::solids::MAX_SCALE;

#[test]
fn void_dodecahedron_is_empty() {
    let d = Dodecahedron::void();
    assert!(d.ph.vtx.is_empty() && d.ph.indices.is_empty() && d.ph.planes.is_empty() && d.ph.polygons.is_empty());
    assert_eq!(d.ph.check(), Err(GeometryError::Empty));
}

#[test]
fn plain_dodecahedron() {
    let mut d = Dodecahedron::void();
    assert_eq!(d.setup(100, false), Ok(()));
    assert_eq!(d.ph.vtx.len(), 20 * 3);
    assert_eq!(d.ph.indices.len(), 12 * 3 * 3);
    assert_eq!(d.ph.planes.len(), 12 * 4);
    assert_eq!(d.ph.polygons.len(), 12 * 6);
    assert_eq!(d.ph.indices, DODECA_INDICES.to_vec());
    assert_eq!(d.ph.polygons, DODECA_POLYGONS.to_vec());
    assert_eq!(d.ph.vtx[0], DODECA_VTX[0] * 100);
    assert_eq!(&d.ph.vtx[..6], &[-872700, -872700, -872700, 0, -1412000, -539300]);
    assert_eq!(&d.ph.planes[..4], &[0, -5257, -8507, 1201100]);
    assert_eq!(d.ph.r, 100);
    assert_eq!(d.ph.check(), Ok(()));
}

#[test]
fn centred_dodecahedron_keeps_the_pentagons() {
    let mut plain = Dodecahedron::void();
    assert_eq!(plain.setup(20, false), Ok(()));
    let mut centred = Dodecahedron::void();
    assert_eq!(centred.setup(20, true), Ok(()));
    assert_eq!(centred.ph.vtx.len(), (20 + 12) * 3);
    assert_eq!(centred.ph.indices.len(), 12 * 5 * 3);
    assert_eq!(centred.ph.indices, DODECA_CENTER_INDICES.to_vec());
    assert_eq!(centred.ph.vtx[95], DODECA_CENTER_VTX[95] * 20);
    assert_eq!(centred.ph.polygons, plain.ph.polygons);
    assert_eq!(centred.ph.planes, plain.ph.planes);
    assert_eq!(&centred.ph.vtx[..60], &plain.ph.vtx[..]);
    // every triangle of a face starts at the centre of the face
    for face in 0..12 {
        for k in 0..5 {
            assert_eq!(centred.ph.indices[(face * 5 + k) * 3], 20 + face as u32);
        }
    }
    assert_eq!(centred.ph.check(), Ok(()));
}

#[test]
fn dodecahedron_is_valid_at_every_scale_tried() {
    for scale in [1, 3, 20, 100, 777, MAX_SCALE] {
        for center in [false, true] {
            let mut d = Dodecahedron::void();
            assert_eq!(d.setup(scale, center), Ok(()));
            assert_eq!(d.ph.check(), Ok(()));
            for index in &d.ph.indices {
                assert!((*index as usize) < d.ph.vtx.len() / 3);
            }
        }
    }
}

#[test]
fn dodecahedron_scale_out_of_range() {
    let mut d = Dodecahedron::void();
    assert_eq!(d.setup(100, true), Ok(()));
    let before = d.ph.vtx.clone();
    assert_eq!(d.setup(0, false), Err(GeometryError::Scale));
    assert_eq!(d.setup(MAX_SCALE + 1, false), Err(GeometryError::Scale));
    assert_eq!(d.ph.vtx, before);
}

#[test]
fn dodecahedron_fits_its_slots() {
    let mut cache = SlotCache::new();
    for (kind, center) in [(PE::EDodecahedronN0, false), (PE::EDodecahedronN1, false), (PE::EDodecahedronCenterN0, true), (PE::EDodecahedronCenterN1, true)] {
        let mut d = Dodecahedron::void();
        assert_eq!(d.setup(20, center), Ok(()));
        assert_eq!(cache.install(kind, kind.parity(), d.ph), Ok(()));
    }
    assert_eq!(cache.get(PE::EDodecahedronCenterN1, 1).unwrap().vtx.len(), 96);
    assert_eq!(cache.get(PE::EDodecahedronN0, 0).unwrap().vtx.len(), 60);
}
