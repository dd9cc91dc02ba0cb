use c60::action::{Action, Reading};
use c60::evolution::EvolutionGraph;
use c60::geometry::Polyhedron;
use c60::key::{make_key, parse_origin};
use c60::kind::{Phase, KIND_COUNT, PE};
use c60::sim::{find_place, Placed, SimApp};
use c60::space::Point;
use c60::tracker::{CollisionPairRecord, Named, Probe};

fn tetra(scale: u32) -> Polyhedron {
    let mut p = Polyhedron::void();
    assert_eq!(p.from_phf(scale), Ok(()));
    p
}

fn point(x: i64, y: i64, z: i64) -> Point {
    Point { x, y, z }
}

/// An engine whose every slot holds a mesh.
fn engine(evo: EvolutionGraph) -> SimApp {
    let mut sim = SimApp::new(evo);
    for u in 0..KIND_COUNT {
        let kind = PE::from_usize(u).unwrap();
        assert_eq!(sim.tm.install(kind, kind.parity(), tetra(100)), Ok(()));
    }
    sim
}

fn record(a: usize, b: usize, origin: &str) -> CollisionPairRecord {
    CollisionPairRecord { a, b, origin: origin.to_string() }
}

fn at(reading_nanos: u128, secs: u64) -> Reading {
    Reading { nanos: reading_nanos, secs }
}

#[test]
fn engine_at_rest() {
    let sim = SimApp::new(EvolutionGraph::reference());
    assert_eq!(sim.phase, Phase::PHold);
    assert_eq!(sim.current, "");
    assert_eq!(sim.pos, point(-2_000_000, 0, 6_000_000));
    assert_eq!(sim.nexpe, PE::ERSphere);
    assert!(sim.ebps.is_empty());
    assert!(!sim.i && !sim.j);
    assert_eq!(sim.u, 0);
    assert!(sim.tm.get(PE::ETetra, 0).is_none());
}

#[test]
fn fresh_keys_differ_and_carry_the_origin() {
    let mut sim = SimApp::new(EvolutionGraph::new());
    let a = sim.ts("tetra");
    let mut b = sim.ts("tetra");
    while b == a {
        b = sim.ts("tetra");
    }
    assert_ne!(a, b);
    assert_eq!(sim.ts_rm(&a), Some("tetra".to_string()));
    assert_eq!(sim.ts_rm(&b), Some("tetra".to_string()));
    assert_eq!(sim.ts_rm("box_small"), None);
    assert!(a.starts_with("tetra_") && a.len() >= "tetra_".len() + 16);
}

#[test]
fn near_callback_queues_same_origin_pairs_only() {
    let mut sim = SimApp::new(EvolutionGraph::reference());
    let bodies = vec![
        Named { id: 1, key: make_key("tetra", 5) },
        Named { id: 2, key: make_key("tetra", 6) },
        Named { id: 3, key: "box_small".to_string() },
    ];
    let touch = |owner1, owner2| Probe { space: false, ground: false, contacts: 3, owner1, owner2 };
    sim.near_callback(&touch(1, 3), &bodies);
    assert!(sim.ebps.is_empty());
    sim.near_callback(&touch(1, 2), &bodies);
    assert_eq!(sim.ebps.len(), 1);
    assert_eq!((sim.ebps[0].a, sim.ebps[0].b, sim.ebps[0].origin.as_str()), (1, 2, "tetra"));
    sim.near_callback(&touch(2, 3), &bodies);
    assert_eq!(sim.ebps.len(), 1);
}

#[test]
fn find_place_takes_the_first_entry() {
    let live = vec![Placed { id: 4, at: point(1, 2, 3) }, Placed { id: 5, at: point(4, 5, 6) }, Placed { id: 4, at: point(7, 8, 9) }];
    assert_eq!(find_place(&live, 4), Some(point(1, 2, 3)));
    assert_eq!(find_place(&live, 5), Some(point(4, 5, 6)));
    assert_eq!(find_place(&live, 6), None);
    assert_eq!(find_place(&Vec::new(), 4), None);
}

#[test]
fn successor_follows_the_graph_or_the_cursor() {
    let mut sim = engine(EvolutionGraph::reference());
    sim.u = 7;
    assert_eq!(sim.successor("cube_center"), PE::EOcta.index());
    assert_eq!(sim.successor("c60_center"), PE::ERSphere.index());
    assert_eq!(sim.successor("cube"), 7);
    assert_eq!(sim.successor(""), 7);
}

#[test]
fn spawn_names_places_and_claims() {
    let mut sim = engine(EvolutionGraph::new());
    let s = sim.spawn(PE::EIcosahedronN1, point(1, 2, 3), 4, 5, 0xabc).unwrap();
    assert_eq!(s.key, "icosahedron_0000000000000abc");
    assert_eq!((s.kind, s.parity, s.at, s.pose, s.tint), (PE::EIcosahedronN1, 1, point(1, 2, 3), 4, 5));
    assert!(sim.tm.is_in_use(PE::EIcosahedronN1, 1));
    assert!(!sim.tm.is_in_use(PE::EIcosahedronN0, 0));
    assert!(sim.spawn(PE::End, point(0, 0, 0), 0, 0, 1).is_none());
}

#[test]
fn spawn_without_mesh_fails_and_changes_nothing() {
    let mut sim = SimApp::new(EvolutionGraph::new());
    assert!(sim.spawn(PE::ETetra, point(0, 0, 0), 0, 0, 1).is_none());
    assert!(!sim.tm.is_in_use(PE::ETetra, 0));
    assert!(sim.create_polyhedron(0, point(0, 0, 0)).is_none());
    assert!(sim.create_polyhedron_at(0, point(0, 0, 0), at(1, 1)).is_none());
}

#[test]
fn create_polyhedron_goes_round_the_family() {
    let mut sim = engine(EvolutionGraph::new());
    let s = sim.create_polyhedron_at(2, point(5, 6, 7), at(255, 20)).unwrap();
    assert_eq!(s.key, "cube_center_00000000000000ff");
    assert_eq!((s.kind, s.parity, s.at, s.pose, s.tint), (PE::ECubeCenter, 0, point(5, 6, 7), 2, 2));
    let s = sim.create_polyhedron_at(KIND_COUNT + 12, point(0, 0, 0), at(1, 9)).unwrap();
    assert_eq!((s.kind, s.pose, s.tint), (PE::EHalfPipe, 3, 0));
    let s = sim.create_polyhedron_at(KIND_COUNT, point(0, 0, 0), at(1, 8)).unwrap();
    assert_eq!((s.kind, s.pose, s.tint), (PE::ETetra, 0, 8));
    let s = sim.create_polyhedron_at(usize::MAX, point(0, 0, 0), at(1, 0)).unwrap();
    assert_eq!(s.kind, PE::from_usize(usize::MAX % KIND_COUNT).unwrap());
    let s = sim.create_polyhedron(25, point(1, 1, 1)).unwrap();
    assert_eq!((s.kind, s.parity, s.at), (PE::EC60CenterN1, 1, point(1, 1, 1)));
    assert_eq!(parse_origin(&s.key), Some("c60_center".to_string()));
}

#[test]
fn merge_of_two_present_bodies() {
    let mut sim = engine(EvolutionGraph::reference());
    let actions = sim.merge(&record(7, 9, "tetra"), Some(point(0, 0, 10)), Some(point(3, -3, 11)), at(16, 0));
    assert_eq!(actions.len(), 4);
    assert!(matches!(actions[0], Action::Destroy(9)));
    assert!(matches!(actions[1], Action::Destroy(7)));
    match &actions[2] {
        Action::Spawn(s) => {
            assert_eq!(s.key, "cube_center_0000000000000010");
            assert_eq!((s.kind, s.at), (PE::ECubeCenter, point(1, -2, 10)));
        }
        _ => panic!("no spawn"),
    }
    match &actions[3] {
        Action::Release(key) => assert_eq!(key, "cube_center_0000000000000010"),
        _ => panic!("no release"),
    }
    assert!(sim.tm.is_in_use(PE::ECubeCenter, 0));
}

#[test]
fn merge_with_a_body_gone() {
    let mut sim = engine(EvolutionGraph::reference());
    let actions = sim.merge(&record(7, 9, "tetra"), Some(point(0, 0, 0)), None, at(1, 0));
    assert_eq!(actions.len(), 1);
    assert!(matches!(actions[0], Action::Destroy(7)));
    let actions = sim.merge(&record(7, 9, "tetra"), None, Some(point(0, 0, 0)), at(1, 0));
    assert_eq!(actions.len(), 1);
    assert!(matches!(actions[0], Action::Destroy(9)));
    let actions = sim.merge(&record(7, 9, "tetra"), None, None, at(1, 0));
    assert!(actions.is_empty());
    assert!(!sim.tm.is_in_use(PE::ECubeCenter, 0));
}

#[test]
fn merge_without_mesh_does_nothing() {
    let mut sim = SimApp::new(EvolutionGraph::reference());
    let actions = sim.merge(&record(7, 9, "tetra"), Some(point(0, 0, 0)), Some(point(2, 0, 0)), at(1, 0));
    assert!(actions.is_empty());
}

#[test]
fn merge_of_a_body_with_itself_does_nothing() {
    let mut sim = engine(EvolutionGraph::reference());
    let actions = sim.merge(&record(7, 7, "tetra"), Some(point(0, 0, 0)), Some(point(0, 0, 0)), at(1, 0));
    assert!(actions.is_empty());
}

#[test]
fn unmapped_origin_is_followed_by_the_cursor_solid() {
    let mut sim = engine(EvolutionGraph::reference());
    sim.u = PE::ECapsule.index();
    let actions = sim.merge(&record(1, 2, "cube"), Some(point(0, 0, 0)), Some(point(0, 0, 0)), at(1, 0));
    match &actions[2] {
        Action::Spawn(s) => assert_eq!(s.kind, PE::ECapsule),
        _ => panic!("no spawn"),
    }
}

#[test]
fn drain_of_cube_centers_leaves_an_octahedron_half_way() {
    let mut evo = EvolutionGraph::new();
    evo.insert("cube_center", PE::EOcta);
    let mut sim = engine(evo);
    let bodies = vec![Named { id: 31, key: make_key("cube_center", 1) }, Named { id: 32, key: make_key("cube_center", 2) }];
    sim.near_callback(&Probe { space: false, ground: false, contacts: 1, owner1: 31, owner2: 32 }, &bodies);
    assert_eq!(sim.ebps.len(), 1);
    let live = vec![Placed { id: 31, at: point(0, 0, 0) }, Placed { id: 32, at: point(2_000_000, 0, 0) }];
    let actions = sim.step_callback(&live);
    assert!(sim.ebps.is_empty());
    let destroyed: Vec<usize> = actions.iter().filter_map(|a| if let Action::Destroy(id) = a { Some(*id) } else { None }).collect();
    assert_eq!(destroyed, vec![32, 31]);
    let spawns: Vec<_> = actions.iter().filter_map(|a| if let Action::Spawn(s) = a { Some(s) } else { None }).collect();
    assert_eq!(spawns.len(), 1);
    assert_eq!(spawns[0].kind, PE::EOcta);
    assert_eq!(spawns[0].at, point(1_000_000, 0, 0));
    assert_eq!(parse_origin(&spawns[0].key), Some("octa".to_string()));
    assert_eq!(actions.len(), 4);
    match &actions[3] {
        Action::Release(key) => assert_eq!(key, &spawns[0].key),
        _ => panic!("no release"),
    }
}

#[test]
fn drain_of_an_empty_queue_does_nothing() {
    let mut sim = engine(EvolutionGraph::reference());
    let live = vec![Placed { id: 1, at: point(0, 0, 0) }];
    let actions = sim.step_callback(&live);
    assert!(actions.is_empty());
    assert!(sim.ebps.is_empty());
    for u in 0..KIND_COUNT {
        let kind = PE::from_usize(u).unwrap();
        assert!(!sim.tm.is_in_use(kind, kind.parity()));
    }
    assert!(sim.step_callback(&Vec::new()).is_empty());
}

#[test]
fn drain_does_not_destroy_a_body_twice() {
    let mut sim = engine(EvolutionGraph::reference());
    sim.ebps.push(record(1, 2, "tetra"));
    sim.ebps.push(record(1, 3, "tetra"));
    sim.ebps.push(record(2, 1, "tetra"));
    let live = vec![Placed { id: 1, at: point(0, 0, 0) }, Placed { id: 2, at: point(4, 0, 0) }, Placed { id: 3, at: point(8, 0, 0) }];
    let actions = sim.step_callback(&live);
    let destroyed: Vec<usize> = actions.iter().filter_map(|a| if let Action::Destroy(id) = a { Some(*id) } else { None }).collect();
    assert_eq!(destroyed, vec![2, 1, 3]);
    let spawns = actions.iter().filter(|a| matches!(a, Action::Spawn(_))).count();
    assert_eq!(spawns, 1);
    assert!(sim.ebps.is_empty());
}

#[test]
fn drain_drops_stale_records() {
    let mut sim = engine(EvolutionGraph::reference());
    sim.ebps.push(record(1, 2, "tetra"));
    let actions = sim.step_callback(&Vec::new());
    assert!(actions.is_empty());
    assert!(sim.ebps.is_empty());
}

#[test]
fn records_of_the_next_step_wait_for_the_next_drain() {
    let mut sim = engine(EvolutionGraph::reference());
    sim.ebps.push(record(1, 2, "tetra"));
    let live = vec![Placed { id: 1, at: point(0, 0, 0) }, Placed { id: 2, at: point(4, 0, 0) }];
    assert_eq!(sim.step_callback(&live).len(), 4);
    sim.ebps.push(record(5, 6, "octa"));
    assert_eq!(sim.ebps.len(), 1);
    let live = vec![Placed { id: 5, at: point(0, 0, 0) }, Placed { id: 6, at: point(4, 0, 0) }];
    let actions = sim.step_callback(&live);
    match &actions[2] {
        Action::Spawn(s) => assert_eq!(s.kind, PE::ECone),
        _ => panic!("no spawn"),
    }
}

#[test]
fn setup_slots_fills_the_tabled_slots_only() {
    let mut sim = SimApp::new(EvolutionGraph::reference());
    assert_eq!(sim.tm.install(PE::EOcta, 0, tetra(7)), Ok(()));
    assert!(sim.tm.claim(PE::EOcta, 0));
    sim.setup_slots();
    for u in 0..KIND_COUNT {
        let kind = PE::from_usize(u).unwrap();
        let mesh = sim.tm.get(kind, kind.parity());
        assert_eq!(mesh.is_some(), c60::generator::is_tabled(kind), "{:?}", kind);
        if let Some(mesh) = mesh {
            assert_eq!(mesh.check(), Ok(()));
        }
    }
    // the slot in use kept its mesh
    assert_eq!(sim.tm.get(PE::EOcta, 0).unwrap().r, 7);
    assert!(sim.tm.is_in_use(PE::EOcta, 0));
    assert_eq!(sim.tm.get(PE::ETetra, 0).unwrap().r, 100);
    assert_eq!(sim.tm.get(PE::ECube, 0).unwrap().r, 20);
    assert_eq!(sim.tm.get(PE::EC60CenterN1, 1).unwrap().r, 20);
    assert!(!sim.tm.is_in_use(PE::ETetra, 0));
    // a slot is of a family and a parity: both icosahedra name both slots
    assert!(sim.tm.get(PE::EIcosahedronN0, 1).is_some());
    assert!(sim.tm.get(PE::ETetra, 1).is_none());
}
