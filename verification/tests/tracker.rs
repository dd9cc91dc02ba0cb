use c60::key::make_key;
use c60::tracker::{is_ignored, starts_with, track, Named, Probe};

fn named(id: usize, key: &str) -> Named {
    Named { id, key: key.to_string() }
}

fn touch(owner1: usize, owner2: usize) -> Probe {
    Probe { space: false, ground: false, contacts: 1, owner1, owner2 }
}

fn scene() -> Vec<Named> {
    vec![
        named(10, "ball_big"),
        named(11, "box_small"),
        named(12, &make_key("tetra", 1000)),
        named(13, "apple"),
        named(14, &make_key("tetra", 2000)),
        named(15, &make_key("cube_center", 3000)),
        named(16, "tmbunny_00000000000000ff"),
        named(17, "stranger"),
    ]
}

#[test]
fn prefixes() {
    assert!(starts_with("box_small", "box"));
    assert!(starts_with("box", "box"));
    assert!(!starts_with("bo", "box"));
    assert!(!starts_with("", "box"));
    assert!(starts_with("anything", ""));
    assert!(!starts_with("tetra", "tm"));
}

#[test]
fn scenery_names() {
    for key in ["box_small", "box_big_0", "p_capsule_0", "p_cylinder_1", "plane", "slope", "apple", "ball", "ball_big", "ball_0000000A", "roll", "fvp_tetra_0", "tmv_cube_0", "tmball_0000000000000001", "tmtetra"] {
        assert!(is_ignored(key), "{}", key);
    }
    for key in ["", "b", "p", "t", "composite_0", "pin_0000000000000001", "r_sphere_0000000000000001", "tetra_0000000000000001", "torus", "tube", "Box", "xbox"] {
        assert!(!is_ignored(key), "{}", key);
    }
}

#[test]
fn two_instances_of_one_origin_leave_one_record() {
    let record = track(&touch(12, 14), &scene()).unwrap();
    assert_eq!((record.a, record.b, record.origin.as_str()), (12, 14, "tetra"));
    // whichever owns the first geometry, the record follows the registry
    let record = track(&touch(14, 12), &scene()).unwrap();
    assert_eq!((record.a, record.b, record.origin.as_str()), (12, 14, "tetra"));
}

#[test]
fn instance_and_scenery_leave_no_record() {
    assert!(track(&touch(12, 11), &scene()).is_none());
    assert!(track(&touch(11, 12), &scene()).is_none());
    assert!(track(&touch(10, 13), &scene()).is_none());
    assert!(track(&touch(16, 12), &scene()).is_none());
}

#[test]
fn different_origins_leave_no_record() {
    assert!(track(&touch(12, 15), &scene()).is_none());
}

#[test]
fn names_that_are_no_keys_leave_no_record() {
    assert!(track(&touch(12, 17), &scene()).is_none());
    let bodies = vec![named(1, "stranger"), named(2, "stranger")];
    assert!(track(&touch(1, 2), &bodies).is_none());
}

#[test]
fn what_does_not_touch_leaves_no_record() {
    let mut probe = touch(12, 14);
    probe.contacts = 0;
    assert!(track(&probe, &scene()).is_none());
    let mut probe = touch(12, 14);
    probe.space = true;
    assert!(track(&probe, &scene()).is_none());
    let mut probe = touch(12, 14);
    probe.ground = true;
    assert!(track(&probe, &scene()).is_none());
    assert!(track(&touch(12, 12), &scene()).is_none());
}

#[test]
fn a_body_that_the_registry_lacks_leaves_no_record() {
    assert!(track(&touch(12, 99), &scene()).is_none());
    assert!(track(&touch(98, 99), &scene()).is_none());
    assert!(track(&touch(12, 14), &Vec::new()).is_none());
}

#[test]
fn a_handle_listed_twice_leaves_no_record() {
    let bodies = vec![named(1, &make_key("octa", 1)), named(1, &make_key("octa", 2)), named(2, &make_key("octa", 3))];
    assert!(track(&touch(1, 2), &bodies).is_none());
    let bodies = vec![named(1, &make_key("octa", 1)), named(1, &make_key("octa", 2))];
    assert!(track(&touch(1, 2), &bodies).is_none());
}

#[test]
fn many_contacts_count_as_one_collision() {
    let mut probe = touch(12, 14);
    probe.contacts = 256;
    assert!(track(&probe, &scene()).is_some());
}
