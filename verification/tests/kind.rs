use c60::kind::{Phase, FAMILY_COUNT, KIND_COUNT, PE, PHASE_COUNT, POSE_COUNT};

#[test]
fn phases_by_ordinal() {
    assert_eq!(Phase::from_usize(0), Some(Phase::PEmpty));
    assert_eq!(Phase::from_usize(1), Some(Phase::PHold));
    assert_eq!(Phase::from_usize(2), Some(Phase::PRelease));
    assert_eq!(Phase::from_usize(3), Some(Phase::PDown));
    assert_eq!(Phase::from_usize(4), None);
    assert_eq!(Phase::from_usize(usize::MAX), None);
    for u in 0..PHASE_COUNT {
        assert_eq!(Phase::from_usize(u).unwrap().index(), u);
    }
    assert_eq!(Phase::PEnd.index(), PHASE_COUNT);
}

#[test]
fn solids_by_ordinal() {
    assert_eq!(PE::from_usize(0), Some(PE::ETetra));
    assert_eq!(PE::from_usize(4), Some(PE::ERSphere));
    assert_eq!(PE::from_usize(13), Some(PE::EPin));
    assert_eq!(PE::from_usize(25), Some(PE::EC60CenterN1));
    assert_eq!(PE::from_usize(26), None);
    assert_eq!(PE::from_usize(usize::MAX), None);
    for u in 0..KIND_COUNT {
        assert_eq!(PE::from_usize(u).unwrap().index(), u);
    }
    assert_eq!(PE::End.index(), KIND_COUNT);
}

#[test]
fn names_of_solids() {
    assert_eq!(PE::ETetra.name(), "tetra");
    assert_eq!(PE::ECubeCenter.name(), "cube_center");
    assert_eq!(PE::ERSphere.name(), "r_sphere");
    assert_eq!(PE::EHalfPipe.name(), "half_pipe");
    assert_eq!(PE::EIcosahedronN0.name(), "icosahedron");
    assert_eq!(PE::EIcosahedronN1.name(), "icosahedron");
    assert_eq!(PE::EDodecahedronCenterN1.name(), "dodecahedron_center");
    assert_eq!(PE::EC60CenterN0.name(), "c60_center");
    assert_eq!(PE::End.name(), "nothing");
}

#[test]
fn pairs_share_family_and_differ_in_parity() {
    assert_eq!(PE::EIcosahedronN0.family(), PE::EIcosahedronN1.family());
    assert_eq!(PE::EIcosahedronN0.parity(), 0);
    assert_eq!(PE::EIcosahedronN1.parity(), 1);
    assert_eq!(PE::ERevolutionN1.parity(), 1);
    assert_eq!(PE::ETetra.parity(), 0);
    assert_eq!(PE::ETetra.family(), 0);
    assert_eq!(PE::EC60CenterN1.family(), FAMILY_COUNT - 1);
    assert_eq!(PE::End.family(), FAMILY_COUNT);
    let mut families = Vec::new();
    for u in 0..KIND_COUNT {
        let kind = PE::from_usize(u).unwrap();
        assert!(kind.family() < FAMILY_COUNT);
        if !families.contains(&kind.family()) {
            families.push(kind.family());
        }
    }
    assert_eq!(families.len(), FAMILY_COUNT);
}

#[test]
fn poses_and_shapes() {
    assert_eq!(PE::ETetra.pose(), 0);
    assert_eq!(PE::ECube.pose(), 1);
    assert_eq!(PE::ECubeCenter.pose(), 2);
    assert_eq!(PE::EHalfPipe.pose(), 3);
    assert_eq!(PE::ERTorus.pose(), 4);
    assert_eq!(PE::ERevolutionN0.pose(), 2);
    assert_eq!(PE::ERevolutionN1.pose(), 4);
    assert_eq!(PE::EC60N0.pose(), 1);
    for u in 0..KIND_COUNT {
        assert!(PE::from_usize(u).unwrap().pose() < POSE_COUNT);
    }
    assert!(PE::ETetra.star_shaped());
    assert!(PE::EC60CenterN1.star_shaped());
    assert!(!PE::ETorus.star_shaped());
    assert!(!PE::ERing.star_shaped());
    assert!(!PE::EPin.star_shaped());
    assert!(!PE::End.star_shaped());
}
