use c60::cache::{SetupError, SlotCache};
use c60::geometry::{GeometryError, Polyhedron};
use c60::kind::{KIND_COUNT, PE};

fn tetra(scale: u32) -> Polyhedron {
    let mut p = Polyhedron::void();
    assert_eq!(p.from_phf(scale), Ok(()));
    p
}

#[test]
fn new_cache_is_vacant() {
    let cache = SlotCache::new();
    for u in 0..KIND_COUNT {
        let kind = PE::from_usize(u).unwrap();
        for parity in 0..2 {
            assert!(cache.get(kind, parity).is_none());
            assert!(!cache.is_in_use(kind, parity));
        }
    }
    assert!(cache.get(PE::End, 0).is_none());
    assert!(cache.get(PE::ETetra, 2).is_none());
}

#[test]
fn install_then_get() {
    let mut cache = SlotCache::new();
    assert_eq!(cache.install(PE::ETetra, 0, tetra(100)), Ok(()));
    assert_eq!(cache.get(PE::ETetra, 0).unwrap().vtx[0], 557700);
    assert!(cache.get(PE::ETetra, 1).is_none());
    assert!(cache.get(PE::ECube, 0).is_none());
    assert!(!cache.is_in_use(PE::ETetra, 0));
    // a slot that no instance was built from may be set up again
    assert_eq!(cache.install(PE::ETetra, 0, tetra(20)), Ok(()));
    assert_eq!(cache.get(PE::ETetra, 0).unwrap().vtx[0], 111540);
    assert_eq!(cache.get(PE::ETetra, 0).unwrap().r, 20);
}

#[test]
fn pairs_share_the_slots_of_their_family() {
    let mut cache = SlotCache::new();
    assert_eq!(cache.install(PE::EIcosahedronN0, 1, tetra(100)), Ok(()));
    assert!(cache.get(PE::EIcosahedronN1, 1).is_some());
    assert!(cache.get(PE::EIcosahedronN1, 0).is_none());
    assert!(cache.get(PE::EIcosahedronN0, 0).is_none());
}

#[test]
fn no_slot() {
    let mut cache = SlotCache::new();
    assert_eq!(cache.install(PE::End, 0, tetra(100)), Err(SetupError::NoSlot));
    assert_eq!(cache.install(PE::ETetra, 2, tetra(100)), Err(SetupError::NoSlot));
    assert!(!cache.claim(PE::End, 0));
    assert!(!cache.claim(PE::ETetra, 7));
}

#[test]
fn bad_mesh_is_refused_and_slot_kept() {
    let mut cache = SlotCache::new();
    assert_eq!(cache.install(PE::ECube, 0, tetra(100)), Ok(()));
    let mut bad = tetra(50);
    bad.indices.swap(0, 1);
    assert_eq!(cache.install(PE::ECube, 0, bad), Err(SetupError::Geometry(GeometryError::Inward)));
    assert_eq!(cache.get(PE::ECube, 0).unwrap().r, 100);
    assert_eq!(cache.install(PE::EOcta, 0, Polyhedron::void()), Err(SetupError::Geometry(GeometryError::Empty)));
    assert!(cache.get(PE::EOcta, 0).is_none());
}

#[test]
fn ring_need_not_look_outward() {
    let mut cache = SlotCache::new();
    let mut inward = tetra(100);
    inward.indices.swap(0, 1);
    assert_eq!(cache.install(PE::ERing, 0, inward), Ok(()));
    let mut flat = tetra(100);
    for v in 0..4 {
        flat.vtx[3 * v] = 0;
    }
    assert_eq!(cache.install(PE::ETorus, 0, flat), Err(SetupError::Geometry(GeometryError::Flat)));
}

#[test]
fn claim_puts_in_use() {
    let mut cache = SlotCache::new();
    assert!(!cache.claim(PE::ETetra, 0));
    assert!(!cache.is_in_use(PE::ETetra, 0));
    assert_eq!(cache.install(PE::ETetra, 0, tetra(100)), Ok(()));
    assert!(cache.claim(PE::ETetra, 0));
    assert!(cache.is_in_use(PE::ETetra, 0));
    assert!(!cache.is_in_use(PE::ETetra, 1));
    assert!(cache.claim(PE::ETetra, 0));
    assert!(cache.is_in_use(PE::ETetra, 0));
}

#[test]
fn install_into_a_slot_in_use_is_refused() {
    let mut cache = SlotCache::new();
    assert_eq!(cache.install(PE::EOcta, 0, tetra(100)), Ok(()));
    assert!(cache.claim(PE::EOcta, 0));
    assert_eq!(cache.install(PE::EOcta, 0, tetra(30)), Err(SetupError::SlotInUse));
    let kept = cache.get(PE::EOcta, 0).unwrap();
    assert_eq!(kept.r, 100);
    assert_eq!(kept.vtx, tetra(100).vtx);
    assert!(cache.is_in_use(PE::EOcta, 0));
    // in use comes before the mesh is looked at
    assert_eq!(cache.install(PE::EOcta, 0, Polyhedron::void()), Err(SetupError::SlotInUse));
    // the other parity is another slot
    assert_eq!(cache.install(PE::EOcta, 1, tetra(30)), Ok(()));
}

#[test]
fn setup_generates_and_stores() {
    let mut cache = SlotCache::new();
    assert_eq!(cache.setup(PE::ECube, 0, 20), Ok(()));
    let cube = cache.get(PE::ECube, 0).unwrap();
    assert_eq!(cube.vtx.len(), 24 * 3);
    assert_eq!(&cube.vtx[..3], &[200000, -200000, 200000]);
    assert_eq!(cube.r, 20);
    assert_eq!(cube.check(), Ok(()));
    assert!(!cache.is_in_use(PE::ECube, 0));
    assert!(cache.get(PE::ECube, 1).is_none());
}

#[test]
fn setup_of_a_slot_in_use_is_refused() {
    let mut cache = SlotCache::new();
    assert_eq!(cache.setup(PE::EOcta, 0, 100), Ok(()));
    let before = cache.get(PE::EOcta, 0).unwrap().vtx.clone();
    assert!(cache.claim(PE::EOcta, 0));
    assert_eq!(cache.setup(PE::EOcta, 0, 30), Err(SetupError::SlotInUse));
    // in use comes before the scale and the table are looked at
    assert_eq!(cache.setup(PE::EOcta, 0, 0), Err(SetupError::SlotInUse));
    let kept = cache.get(PE::EOcta, 0).unwrap();
    assert_eq!(kept.vtx, before);
    assert_eq!(kept.r, 100);
    assert!(cache.is_in_use(PE::EOcta, 0));
    assert_eq!(cache.setup(PE::EOcta, 1, 30), Ok(()));
}

#[test]
fn setup_errors() {
    let mut cache = SlotCache::new();
    assert_eq!(cache.setup(PE::End, 0, 100), Err(SetupError::NoSlot));
    assert_eq!(cache.setup(PE::ECube, 2, 100), Err(SetupError::NoSlot));
    assert_eq!(cache.setup(PE::ECube, 0, 0), Err(SetupError::Geometry(GeometryError::Scale)));
    assert_eq!(cache.setup(PE::ECube, 0, 50_001), Err(SetupError::Geometry(GeometryError::Scale)));
    assert_eq!(cache.setup(PE::ERing, 0, 100), Err(SetupError::Geometry(GeometryError::NoTable)));
    assert_eq!(cache.setup(PE::ERing, 0, 0), Err(SetupError::Geometry(GeometryError::Scale)));
    assert!(cache.get(PE::ECube, 0).is_none());
    assert!(cache.get(PE::ERing, 0).is_none());
}
