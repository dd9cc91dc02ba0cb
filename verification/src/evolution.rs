//! The evolution graph: which solid follows a pair that shared an origin.

use vstd::prelude::*;
use vstd::string::*;
use crate::kind::PE;

verus! {

/// One arrow of the graph: pairs of `origin` are followed by `next`.
pub struct Arrow {
    pub origin: String,
    pub next: PE,
}

/// A partial mapping from origin names to successor solids.
pub struct EvolutionGraph {
    arrows: Vec<Arrow>,
}

/// The mapping that a list of arrows stands for; a later arrow wins.
pub open spec fn arrows_map(arrows: Seq<Arrow>) -> Map<Seq<char>, PE>
    decreases arrows.len(),
{
    if arrows.len() == 0 {
        Map::empty()
    } else {
        arrows_map(arrows.drop_last()).insert(arrows.last().origin@, arrows.last().next)
    }
}

/// No origin stands in two arrows.
pub open spec fn arrows_distinct(arrows: Seq<Arrow>) -> bool {
    forall|i: int, j: int|
        0 <= i < j < arrows.len() ==> (#[trigger] arrows[i]).origin@ != (#[trigger] arrows[j]).origin@
}

/// An arrow of the list says what the mapping says of its origin, and the
/// mapping holds nothing else.
pub proof fn lemma_arrows_map(arrows: Seq<Arrow>)
    requires
        arrows_distinct(arrows),
    ensures
        forall|i: int| 0 <= i < arrows.len() ==> arrows_map(arrows).contains_key((#[trigger] arrows[i]).origin@)
            && arrows_map(arrows)[arrows[i].origin@] == arrows[i].next,
        forall|k: Seq<char>| #[trigger] arrows_map(arrows).contains_key(k) ==> exists|i: int| 0 <= i < arrows.len() && (#[trigger] arrows[i]).origin@ == k,
    decreases arrows.len(),
{
    if arrows.len() > 0 {
        let front = arrows.drop_last();
        assert forall|i: int, j: int| 0 <= i < j < front.len() implies (#[trigger] front[i]).origin@ != (#[trigger] front[j]).origin@ by {
            assert(front[i] == arrows[i] && front[j] == arrows[j]);
        }
        lemma_arrows_map(front);
        assert forall|i: int| 0 <= i < arrows.len() implies arrows_map(arrows).contains_key((#[trigger] arrows[i]).origin@)
            && arrows_map(arrows)[arrows[i].origin@] == arrows[i].next by {
            if i < front.len() {
                assert(front[i] == arrows[i]);
                assert(arrows[i].origin@ != arrows[arrows.len() - 1].origin@);
            }
        }
        assert forall|k: Seq<char>| #[trigger] arrows_map(arrows).contains_key(k) implies exists|i: int| 0 <= i < arrows.len() && (#[trigger] arrows[i]).origin@ == k by {
            if k == arrows.last().origin@ {
                assert(arrows[arrows.len() - 1].origin@ == k);
            } else {
                assert(arrows_map(front).contains_key(k));
                let i = choose|i: int| 0 <= i < front.len() && (#[trigger] front[i]).origin@ == k;
                assert(arrows[i].origin@ == k);
            }
        }
    }
}

impl View for EvolutionGraph {
    type V = Map<Seq<char>, PE>;

    closed spec fn view(&self) -> Map<Seq<char>, PE> {
        arrows_map(self.arrows@)
    }
}

impl EvolutionGraph {
    /// What every graph keeps: each origin has one arrow at most.
    pub closed spec fn wf(&self) -> bool {
        arrows_distinct(self.arrows@)
    }

    /// The successor that the graph gives `origin`, `fallback` where it gives none.
    pub open spec fn successor(&self, origin: Seq<char>, fallback: PE) -> PE {
        if self@.contains_key(origin) {
            self@[origin]
        } else {
            fallback
        }
    }

    /// The graph without arrows.
    pub fn new() -> (g: EvolutionGraph)
        ensures
            g.wf(),
            g@ == Map::<Seq<char>, PE>::empty(),
    {
        EvolutionGraph { arrows: Vec::new() }
    }

    /// Where the arrow of `origin` stands in the list, if it has one.
    fn find(&self, origin: &str) -> (at: Option<usize>)
        requires
            self.wf(),
        ensures
            at is Some <==> self@.contains_key(origin@),
            at is Some ==> at->0 < self.arrows@.len() && self.arrows@[at->0 as int].origin@ == origin@,
    {
        let wanted = String::from_str(origin);
        let mut i: usize = 0;
        while i < self.arrows.len()
            invariant
                0 <= i <= self.arrows@.len(),
                self.wf(),
                wanted@ == origin@,
                forall|k: int| 0 <= k < i ==> (#[trigger] self.arrows@[k]).origin@ != origin@,
            decreases self.arrows@.len() - i,
        {
            if self.arrows[i].origin == wanted {
                proof {
                    lemma_arrows_map(self.arrows@);
                }
                return Some(i);
            }
            i = i + 1;
        }
        proof {
            lemma_arrows_map(self.arrows@);
        }
        None
    }

    /// Lets pairs of `origin` be followed by `next`, in place of what
    /// followed them before.
    pub fn insert(&mut self, origin: &str, next: PE)
        requires
            old(self).wf(),
        ensures
            final(self).wf(),
            final(self)@ == old(self)@.insert(origin@, next),
    {
        match self.find(origin) {
            Some(at) => {
                let ghost before = self.arrows@;
                self.arrows[at].next = next;
                proof {
                    lemma_replace(before, self.arrows@, at as int);
                }
            },
            None => {
                let ghost before = self.arrows@;
                self.arrows.push(Arrow { origin: String::from_str(origin), next });
                proof {
                    lemma_arrows_map(before);
                    assert(self.arrows@.drop_last() =~= before);
                    assert forall|i: int, j: int| 0 <= i < j < self.arrows@.len() implies (#[trigger] self.arrows@[i]).origin@ != (#[trigger] self.arrows@[j]).origin@ by {
                        assert(self.arrows@[i] == before[i]);
                        if j < before.len() {
                            assert(self.arrows@[j] == before[j]);
                        } else {
                            assert(before[i].origin@ != origin@);
                        }
                    }
                }
            },
        }
    }

    /// The solid that follows a pair of `origin`: what the graph maps the
    /// origin to, and `fallback` for an origin that it does not map.
    pub fn next(&self, origin: &str, fallback: PE) -> (r: PE)
        requires
            self.wf(),
        ensures
            r == self.successor(origin@, fallback),
    {
        match self.find(origin) {
            Some(at) => {
                proof {
                    lemma_arrows_map(self.arrows@);
                }
                self.arrows[at].next
            },
            None => fallback,
        }
    }

    /// The solid that the graph maps `origin` to, if it maps it.
    pub fn find_next(&self, origin: &str) -> (r: Option<PE>)
        requires
            self.wf(),
        ensures
            r is Some <==> self@.contains_key(origin@),
            r is Some ==> r->0 == self@[origin@],
    {
        match self.find(origin) {
            Some(at) => {
                proof {
                    lemma_arrows_map(self.arrows@);
                }
                Some(self.arrows[at].next)
            },
            None => None,
        }
    }

    /// How many origins the graph maps.
    pub fn len(&self) -> (n: usize)
        requires
            self.wf(),
        ensures
            n == self@.dom().len(),
            self@.dom().finite(),
    {
        proof {
            lemma_arrows_len(self.arrows@);
        }
        self.arrows.len()
    }
}

/// Changing the successor in one arrow changes the mapping at its origin only.
proof fn lemma_replace(before: Seq<Arrow>, after: Seq<Arrow>, at: int)
    requires
        arrows_distinct(before),
        0 <= at < before.len(),
        after.len() == before.len(),
        after[at].origin@ == before[at].origin@,
        forall|i: int| 0 <= i < before.len() && i != at ==> after[i] == before[i],
    ensures
        arrows_distinct(after),
        arrows_map(after) == arrows_map(before).insert(before[at].origin@, after[at].next),
{
    assert forall|i: int, j: int| 0 <= i < j < after.len() implies (#[trigger] after[i]).origin@ != (#[trigger] after[j]).origin@ by {
        assert(before[i].origin@ != before[j].origin@);
    }
    lemma_arrows_map(before);
    lemma_arrows_map(after);
    let m1 = arrows_map(after);
    let m2 = arrows_map(before).insert(before[at].origin@, after[at].next);
    assert forall|k: Seq<char>| m1.contains_key(k) <==> m2.contains_key(k) by {
        if m1.contains_key(k) {
            let i = choose|i: int| 0 <= i < after.len() && (#[trigger] after[i]).origin@ == k;
            assert(before[i].origin@ == k);
        }
        if m2.contains_key(k) && k != before[at].origin@ {
            let i = choose|i: int| 0 <= i < before.len() && (#[trigger] before[i]).origin@ == k;
            assert(after[i].origin@ == k);
        }
        if k == before[at].origin@ {
            assert(after[at].origin@ == k);
        }
    }
    assert forall|k: Seq<char>| m1.contains_key(k) implies m1[k] == m2[k] by {
        let i = choose|i: int| 0 <= i < after.len() && (#[trigger] after[i]).origin@ == k;
        if i == at {
        } else {
            assert(before[i].origin@ == k);
            assert(before[i].origin@ != before[at].origin@);
        }
    }
    assert(m1 =~= m2);
}

/// A list of arrows with distinct origins maps as many origins as it is long.
proof fn lemma_arrows_len(arrows: Seq<Arrow>)
    requires
        arrows_distinct(arrows),
    ensures
        arrows_map(arrows).dom().finite(),
        arrows_map(arrows).dom().len() == arrows.len(),
    decreases arrows.len(),
{
    if arrows.len() > 0 {
        let front = arrows.drop_last();
        assert forall|i: int, j: int| 0 <= i < j < front.len() implies (#[trigger] front[i]).origin@ != (#[trigger] front[j]).origin@ by {
            assert(front[i] == arrows[i] && front[j] == arrows[j]);
        }
        lemma_arrows_len(front);
        lemma_arrows_map(front);
        if arrows_map(front).contains_key(arrows.last().origin@) {
            let i = choose|i: int| 0 <= i < front.len() && (#[trigger] front[i]).origin@ == arrows.last().origin@;
            assert(arrows[i].origin@ == arrows[arrows.len() - 1].origin@);
        }
        assert(arrows_map(arrows).dom() =~= arrows_map(front).dom().insert(arrows.last().origin@));
    }
}



/// The reference graph: a cycle of ten origins, from the sphere through the
/// tetrahedron to the truncated icosahedron and back.
pub open spec fn reference_map() -> Map<Seq<char>, PE> {
    Map::<Seq<char>, PE>::empty().insert(
        "r_sphere"@,
        PE::ETetra,
    ).insert(
        "tetra"@,
        PE::ECubeCenter,
    ).insert(
        "cube_center"@,
        PE::EOcta,
    ).insert(
        "octa"@,
        PE::ECone,
    ).insert(
        "cone"@,
        PE::EIcosahedronN0,
    ).insert(
        "icosahedron"@,
        PE::EPin,
    ).insert(
        "pin"@,
        PE::EDodecahedronCenterN0,
    ).insert(
        "dodecahedron_center"@,
        PE::ERing,
    ).insert(
        "ring"@,
        PE::EC60CenterN0,
    ).insert(
        "c60_center"@,
        PE::ERSphere,
    )
}

/// The origin of what follows a pair of `origin`.
pub open spec fn follow(m: Map<Seq<char>, PE>, origin: Seq<char>, fallback: PE) -> Seq<char> {
    if m.contains_key(origin) {
        m[origin].name_spec()
    } else {
        fallback.name_spec()
    }
}

/// The origin reached from `origin` after `steps` generations.
pub open spec fn follow_n(m: Map<Seq<char>, PE>, origin: Seq<char>, fallback: PE, steps: nat) -> Seq<char>
    decreases steps,
{
    if steps == 0 {
        origin
    } else {
        follow(m, follow_n(m, origin, fallback, (steps - 1) as nat), fallback)
    }
}

impl EvolutionGraph {
    /// The reference graph.
    pub fn reference() -> (g: EvolutionGraph)
        ensures
            g.wf(),
            g@ == reference_map(),
    {
        let mut g = EvolutionGraph::new();
        g.insert("r_sphere", PE::ETetra);
        g.insert("tetra", PE::ECubeCenter);
        g.insert("cube_center", PE::EOcta);
        g.insert("octa", PE::ECone);
        g.insert("cone", PE::EIcosahedronN0);
        g.insert("icosahedron", PE::EPin);
        g.insert("pin", PE::EDodecahedronCenterN0);
        g.insert("dodecahedron_center", PE::ERing);
        g.insert("ring", PE::EC60CenterN0);
        g.insert("c60_center", PE::ERSphere);
        g
    }
}

/// The ten origins of the reference graph are ten.
proof fn lemma_reference_origins()
    ensures
        reference_map().dom() =~= set!["r_sphere"@, "tetra"@, "cube_center"@, "octa"@, "cone"@, "icosahedron"@, "pin"@, "dodecahedron_center"@, "ring"@, "c60_center"@],
        reference_map()["r_sphere"@] == PE::ETetra,
        reference_map()["tetra"@] == PE::ECubeCenter,
        reference_map()["cube_center"@] == PE::EOcta,
        reference_map()["octa"@] == PE::ECone,
        reference_map()["cone"@] == PE::EIcosahedronN0,
        reference_map()["icosahedron"@] == PE::EPin,
        reference_map()["pin"@] == PE::EDodecahedronCenterN0,
        reference_map()["dodecahedron_center"@] == PE::ERing,
        reference_map()["ring"@] == PE::EC60CenterN0,
        reference_map()["c60_center"@] == PE::ERSphere,
{
    crate::kind::lemma_names_differ();
}

/// In the reference graph every origin leads to the next of the cycle.
proof fn lemma_reference_steps(fallback: PE)
    ensures
        follow(reference_map(), "r_sphere"@, fallback) == "tetra"@,
        follow(reference_map(), "tetra"@, fallback) == "cube_center"@,
        follow(reference_map(), "cube_center"@, fallback) == "octa"@,
        follow(reference_map(), "octa"@, fallback) == "cone"@,
        follow(reference_map(), "cone"@, fallback) == "icosahedron"@,
        follow(reference_map(), "icosahedron"@, fallback) == "pin"@,
        follow(reference_map(), "pin"@, fallback) == "dodecahedron_center"@,
        follow(reference_map(), "dodecahedron_center"@, fallback) == "ring"@,
        follow(reference_map(), "ring"@, fallback) == "c60_center"@,
        follow(reference_map(), "c60_center"@, fallback) == "r_sphere"@,
{
    lemma_reference_origins();
}

/// Under the reference graph ten generations lead from every origin of the
/// cycle back to it, whatever the fallback; from the sphere no fewer do.
pub proof fn lemma_reference_cycle(origin: Seq<char>, fallback: PE)
    requires
        reference_map().contains_key(origin),
    ensures
        follow_n(reference_map(), origin, fallback, 10) == origin,
        forall|k: nat| 0 < k < 10 ==> #[trigger] follow_n(reference_map(), "r_sphere"@, fallback, k) != "r_sphere"@,
{
    let m = reference_map();
    lemma_reference_origins();
    lemma_reference_steps(fallback);
    reveal_with_fuel(follow_n, 11);
    crate::kind::lemma_names_differ();
    assert forall|k: nat| 0 < k < 10 implies #[trigger] follow_n(m, "r_sphere"@, fallback, k) != "r_sphere"@ by {
        if k == 1 {
        } else if k == 2 {
        } else if k == 3 {
        } else if k == 4 {
        } else if k == 5 {
        } else if k == 6 {
        } else if k == 7 {
        } else if k == 8 {
        } else {
        }
    }
}

} // verus!
