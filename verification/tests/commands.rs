use c60::action::{Action, Prop, Reading};
use c60::command::{decode, Command};
use c60::evolution::EvolutionGraph;
use c60::geometry::Polyhedron;
use c60::key::parse_origin;
use c60::kind::{KIND_COUNT, PE};
use c60::sim::{SimApp, STEP};
use c60::space::Point;

fn tetra(scale: u32) -> Polyhedron {
    let mut p = Polyhedron::void();
    assert_eq!(p.from_phf(scale), Ok(()));
    p
}

fn engine() -> SimApp {
    let mut sim = SimApp::new(EvolutionGraph::reference());
    for u in 0..KIND_COUNT {
        let kind = PE::from_usize(u).unwrap();
        assert_eq!(sim.tm.install(kind, kind.parity(), tetra(100)), Ok(()));
    }
    sim
}

fn key(c: char) -> i32 {
    c as i32
}

#[test]
fn keys_are_decoded() {
    assert_eq!(decode(key('0')), Command::Drop(Prop::Bunny));
    assert_eq!(decode(key('1')), Command::Drop(Prop::Tetra));
    assert_eq!(decode(key('2')), Command::Drop(Prop::Cube));
    assert_eq!(decode(key('3')), Command::Drop(Prop::Icosahedron));
    assert_eq!(decode(key('4')), Command::Drop(Prop::Ball));
    assert_eq!(decode(key('5')), Command::Drop(Prop::Composite));
    assert_eq!(decode(key('6')), Command::Drop(Prop::BoxSmall));
    assert_eq!(decode(key('7')), Command::Icosahedra);
    assert_eq!(decode(key('8')), Command::Dodecahedra);
    assert_eq!(decode(key('9')), Command::Fullerenes);
    assert_eq!(decode(key('@')), Command::Next);
    assert_eq!(decode(key('h')), Command::Left);
    assert_eq!(decode(key('j')), Command::Front);
    assert_eq!(decode(key('k')), Command::Back);
    assert_eq!(decode(key('l')), Command::Right);
    assert_eq!(decode(key('c')), Command::Info);
    assert_eq!(decode(key('x')), Command::InfoSub);
    assert_eq!(decode(key(' ')), Command::Apple);
    assert_eq!(decode(key('t')), Command::Push);
    assert_eq!(decode(key('o')), Command::BigBall);
    assert_eq!(decode(key('b')), Command::Recolor);
    assert_eq!(decode(key('a')), Command::ListAll);
    assert_eq!(decode(key('?')), Command::Help);
    assert_eq!(decode(key('z')), Command::Nothing);
    assert_eq!(decode(0), Command::Nothing);
}

#[test]
fn only_the_lowest_byte_counts() {
    assert_eq!(decode(key('@') + 256), Command::Next);
    assert_eq!(decode(key('@') - 256), Command::Next);
    assert_eq!(decode(key('h') + 0x7fff_ff00), Command::Left);
    assert_eq!(decode(i32::MIN + key('7')), Command::Icosahedra);
    assert_eq!(decode(-1), Command::Nothing);
    assert_eq!(decode(-256 + key('?')), Command::Help);
    assert_eq!(decode(i32::MAX), Command::Nothing);
    assert_eq!(decode(i32::MIN), Command::Nothing);
}

#[test]
fn number_keys_drop_scenery() {
    let mut sim = engine();
    let actions = sim.command_callback(key('4'));
    assert_eq!(actions.len(), 1);
    assert!(matches!(actions[0], Action::Drop(Prop::Ball)));
    let actions = sim.command_callback(key('6'));
    assert!(matches!(actions[0], Action::Drop(Prop::BoxSmall)));
}

#[test]
fn plain_requests() {
    let mut sim = engine();
    assert!(matches!(sim.command_callback(key(' '))[..], [Action::ToggleApple]));
    assert!(matches!(sim.command_callback(key('t'))[..], [Action::Push]));
    assert!(matches!(sim.command_callback(key('o'))[..], [Action::ShowBigBall]));
    assert!(matches!(sim.command_callback(key('b'))[..], [Action::Recolor]));
    assert!(matches!(sim.command_callback(key('a'))[..], [Action::ListAll]));
    assert!(matches!(sim.command_callback(key('?'))[..], [Action::Help]));
    assert!(sim.command_callback(key('z')).is_empty());
    assert_eq!(sim.pos, Point { x: -2_000_000, y: 0, z: 6_000_000 });
    assert_eq!(sim.u, 0);
}

#[test]
fn report_switches_toggle() {
    let mut sim = engine();
    assert!(sim.command_callback(key('c')).is_empty());
    assert!(sim.i && !sim.j);
    assert!(sim.command_callback(key('x')).is_empty());
    assert!(sim.i && sim.j);
    sim.command_callback(key('c'));
    assert!(!sim.i && sim.j);
    sim.command_callback(key('x'));
    assert!(!sim.i && !sim.j);
}

#[test]
fn cursor_moves_by_a_tenth() {
    let mut sim = engine();
    assert_eq!(STEP, 100_000);
    assert!(sim.command_callback(key('h')).is_empty());
    assert_eq!(sim.pos, Point { x: -2_000_000, y: -100_000, z: 6_000_000 });
    sim.command_callback(key('l'));
    sim.command_callback(key('l'));
    assert_eq!(sim.pos, Point { x: -2_000_000, y: 100_000, z: 6_000_000 });
    sim.command_callback(key('j'));
    assert_eq!(sim.pos, Point { x: -1_900_000, y: 100_000, z: 6_000_000 });
    sim.command_callback(key('k'));
    sim.command_callback(key('k'));
    assert_eq!(sim.pos, Point { x: -2_100_000, y: 100_000, z: 6_000_000 });
}

#[test]
fn cursor_stops_at_the_end_of_the_world() {
    let mut sim = engine();
    sim.pos = Point { x: i64::MAX - 5, y: i64::MIN + 5, z: 0 };
    sim.command_callback(key('j'));
    sim.command_callback(key('h'));
    assert_eq!(sim.pos, Point { x: i64::MAX, y: i64::MIN, z: 0 });
}

#[test]
fn what_the_cursor_holds_moves_with_it() {
    let mut sim = engine();
    let taken = sim.take_up(3, Reading { nanos: 9, secs: 1 });
    assert_eq!(taken.len(), 1);
    assert_eq!(sim.current, "octa_0000000000000009");
    let actions = sim.command_callback(key('l'));
    match &actions[..] {
        [Action::Place(name, at)] => {
            assert_eq!(name, "octa_0000000000000009");
            assert_eq!(*at, Point { x: -2_000_000, y: 100_000, z: 6_000_000 });
        }
        _ => panic!("no place"),
    }
}

#[test]
fn take_up_without_mesh_holds_nothing() {
    let mut sim = SimApp::new(EvolutionGraph::reference());
    sim.current = "octa_0000000000000009".to_string();
    let actions = sim.take_up(3, Reading { nanos: 9, secs: 1 });
    assert!(actions.is_empty());
    assert_eq!(sim.current, "");
}

#[test]
fn next_releases_and_takes_up() {
    let mut sim = engine();
    let actions = sim.command_callback(key('@'));
    // nothing was held, so nothing is released
    assert_eq!(actions.len(), 1);
    assert!(sim.u < KIND_COUNT);
    assert_eq!(sim.nexpe, PE::from_usize(sim.u).unwrap());
    let held = sim.current.clone();
    match &actions[0] {
        Action::Spawn(s) => {
            assert_eq!(s.kind, sim.nexpe);
            assert_eq!(s.key, held);
            assert_eq!(s.at, sim.pos);
            assert_eq!(s.pose, sim.nexpe.pose());
            assert_eq!(s.parity, sim.nexpe.parity());
            assert!(s.tint < 9);
        }
        _ => panic!("no spawn"),
    }
    assert_eq!(parse_origin(&held), Some(sim.nexpe.name().to_string()));
    assert!(sim.tm.is_in_use(sim.nexpe, sim.nexpe.parity()));
    let actions = sim.command_callback(key('@'));
    assert_eq!(actions.len(), 2);
    match &actions[0] {
        Action::Release(name) => assert_eq!(name, &held),
        _ => panic!("no release"),
    }
    assert!(matches!(actions[1], Action::Spawn(_)));
    assert_ne!(sim.current, held);
}

#[test]
fn next_stays_in_the_family_from_any_ordinal() {
    let mut sim = engine();
    sim.u = usize::MAX;
    for _ in 0..50 {
        sim.command_callback(key('@'));
        assert!(sim.u < KIND_COUNT);
        assert_ne!(sim.nexpe, PE::End);
    }
}

#[test]
fn shows_create_and_release_pairs() {
    let mut sim = engine();
    let actions = sim.command_callback(key('7'));
    assert_eq!(actions.len(), 4);
    let mut names = Vec::new();
    for (i, kind) in [PE::EIcosahedronN0, PE::EIcosahedronN1].iter().enumerate() {
        match (&actions[2 * i], &actions[2 * i + 1]) {
            (Action::Spawn(s), Action::Release(name)) => {
                assert_eq!(s.kind, *kind);
                assert_eq!(s.parity, i);
                assert_eq!(s.at, Point { x: -4_000_000 + 2_000_000 * i as i64, y: 0, z: 2_000_000 });
                assert_eq!((s.pose, s.tint), (0, 0));
                assert_eq!(&s.key, name);
                assert_eq!(parse_origin(name), Some("icosahedron".to_string()));
                names.push(name.clone());
            }
            _ => panic!("no spawn and release"),
        }
    }
    let actions = sim.command_callback(key('8'));
    assert_eq!(actions.len(), 8);
    let lines: Vec<i64> = actions.iter().filter_map(|a| if let Action::Spawn(s) = a { Some(s.at.y) } else { None }).collect();
    assert_eq!(lines, vec![-4_000_000, -4_000_000, -2_000_000, -2_000_000]);
    let kinds: Vec<PE> = actions.iter().filter_map(|a| if let Action::Spawn(s) = a { Some(s.kind) } else { None }).collect();
    assert_eq!(kinds, vec![PE::EDodecahedronN0, PE::EDodecahedronN1, PE::EDodecahedronCenterN0, PE::EDodecahedronCenterN1]);
    let actions = sim.command_callback(key('9'));
    let lines: Vec<i64> = actions.iter().filter_map(|a| if let Action::Spawn(s) = a { Some(s.at.y) } else { None }).collect();
    assert_eq!(lines, vec![4_000_000, 4_000_000, 2_000_000, 2_000_000]);
    let kinds: Vec<PE> = actions.iter().filter_map(|a| if let Action::Spawn(s) = a { Some(s.kind) } else { None }).collect();
    assert_eq!(kinds, vec![PE::EC60N0, PE::EC60N1, PE::EC60CenterN0, PE::EC60CenterN1]);
}

#[test]
fn shows_skip_what_has_no_mesh() {
    let mut sim = SimApp::new(EvolutionGraph::reference());
    assert_eq!(sim.tm.install(PE::EIcosahedronN1, 1, tetra(100)), Ok(()));
    let actions = sim.create_c60_icosahedron();
    assert_eq!(actions.len(), 2);
    match &actions[0] {
        Action::Spawn(s) => assert_eq!((s.kind, s.at.x), (PE::EIcosahedronN1, -2_000_000)),
        _ => panic!("no spawn"),
    }
    assert!(sim.create_c60_dodecahedron().is_empty());
    assert!(sim.create_c60_dodecahedron_center().is_empty());
    assert!(sim.create_c60_fullerene().is_empty());
    assert!(sim.create_c60_fullerene_center().is_empty());
}

#[test]
fn opening_shows_five_pairs_and_takes_up_the_sphere() {
    let mut sim = engine();
    let actions = sim.start_callback();
    assert_eq!(actions.len(), 21);
    let kinds: Vec<PE> = actions.iter().filter_map(|a| if let Action::Spawn(s) = a { Some(s.kind) } else { None }).collect();
    assert_eq!(
        kinds,
        vec![
            PE::EIcosahedronN0,
            PE::EIcosahedronN1,
            PE::EDodecahedronN0,
            PE::EDodecahedronN1,
            PE::EDodecahedronCenterN0,
            PE::EDodecahedronCenterN1,
            PE::EC60N0,
            PE::EC60N1,
            PE::EC60CenterN0,
            PE::EC60CenterN1,
            PE::ERSphere
        ]
    );
    let releases = actions.iter().filter(|a| matches!(a, Action::Release(_))).count();
    assert_eq!(releases, 10);
    match &actions[20] {
        Action::Spawn(s) => {
            assert_eq!(s.key, sim.current);
            assert_eq!(s.at, sim.pos);
        }
        _ => panic!("no spawn"),
    }
    assert_eq!(parse_origin(&sim.current), Some("r_sphere".to_string()));
}

#[test]
fn opening_sets_up_the_tables_itself() {
    let mut sim = SimApp::new(EvolutionGraph::reference());
    let actions = sim.start_callback();
    // the five pairs have tables; the sphere that the cursor would take up has none
    assert_eq!(actions.len(), 20);
    assert_eq!(sim.current, "");
    assert_eq!(sim.tm.get(PE::EC60N0, 0).unwrap().vtx.len(), 180);
    assert!(sim.tm.get(PE::ERSphere, 0).is_none());
    let mut sim = SimApp::new(EvolutionGraph::reference());
    sim.nexpe = PE::ECubeCenter;
    let actions = sim.start_callback();
    assert_eq!(actions.len(), 21);
    assert_eq!(parse_origin(&sim.current), Some("cube_center".to_string()));
}
