use c60::evolution::EvolutionGraph;
use c60::kind::PE;

#[test]
fn empty_graph_falls_back() {
    let g = EvolutionGraph::new();
    assert_eq!(g.len(), 0);
    assert_eq!(g.next("tetra", PE::ERing), PE::ERing);
    assert_eq!(g.next("", PE::ECone), PE::ECone);
    assert_eq!(g.find_next("tetra"), None);
}

#[test]
fn insert_maps_and_replaces() {
    let mut g = EvolutionGraph::new();
    g.insert("cube_center", PE::EOcta);
    g.insert("tetra", PE::ECube);
    assert_eq!(g.len(), 2);
    assert_eq!(g.next("cube_center", PE::End), PE::EOcta);
    assert_eq!(g.next("tetra", PE::End), PE::ECube);
    assert_eq!(g.next("cube", PE::End), PE::End);
    g.insert("tetra", PE::EPin);
    assert_eq!(g.len(), 2);
    assert_eq!(g.next("tetra", PE::End), PE::EPin);
    assert_eq!(g.next("cube_center", PE::End), PE::EOcta);
    assert_eq!(g.find_next("tetra"), Some(PE::EPin));
}

#[test]
fn reference_graph_is_a_cycle_of_ten() {
    let g = EvolutionGraph::reference();
    assert_eq!(g.len(), 10);
    let mut origin = "r_sphere".to_string();
    let mut seen = vec![origin.clone()];
    for step in 1..=10 {
        origin = g.next(&origin, PE::End).name().to_string();
        if step < 10 {
            assert_ne!(origin, "r_sphere");
            assert!(!seen.contains(&origin));
            seen.push(origin.clone());
        }
    }
    assert_eq!(origin, "r_sphere");
    assert_eq!(
        seen,
        vec![
            "r_sphere",
            "tetra",
            "cube_center",
            "octa",
            "cone",
            "icosahedron",
            "pin",
            "dodecahedron_center",
            "ring",
            "c60_center"
        ]
    );
}

#[test]
fn reference_graph_arrows() {
    let g = EvolutionGraph::reference();
    assert_eq!(g.next("r_sphere", PE::End), PE::ETetra);
    assert_eq!(g.next("tetra", PE::End), PE::ECubeCenter);
    assert_eq!(g.next("cube_center", PE::End), PE::EOcta);
    assert_eq!(g.next("octa", PE::End), PE::ECone);
    assert_eq!(g.next("cone", PE::End), PE::EIcosahedronN0);
    assert_eq!(g.next("icosahedron", PE::End), PE::EPin);
    assert_eq!(g.next("pin", PE::End), PE::EDodecahedronCenterN0);
    assert_eq!(g.next("dodecahedron_center", PE::End), PE::ERing);
    assert_eq!(g.next("ring", PE::End), PE::EC60CenterN0);
    assert_eq!(g.next("c60_center", PE::End), PE::ERSphere);
    assert_eq!(g.next("cube", PE::ECapsule), PE::ECapsule);
    assert_eq!(g.next("tmball", PE::ECapsule), PE::ECapsule);
}
