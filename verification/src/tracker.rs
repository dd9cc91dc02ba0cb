//! The collision pair tracker: from what the near phase saw of one
//! candidate pair to the record of a collision of two instances of one
//! origin, or to nothing.

use vstd::prelude::*;
use vstd::string::*;
use crate::key::{origin_of, parse_origin};
use crate::kind::PE;

verus! {

/// Handle of a body of the registry.
pub type BodyId = usize;

/// Number of name prefixes that mark scenery.
pub const IGNORE_COUNT: usize = 10;

/// What the near phase saw of a candidate pair of geometries.
#[derive(Debug, Clone, Copy, PartialEq, Eq, Structural)]
pub struct Probe {
    /// One of the two is a space and no geometry.
    pub space: bool,
    /// One of the two is the ground.
    pub ground: bool,
    /// Number of contacts between the two.
    pub contacts: usize,
    /// The body that owns the first geometry.
    pub owner1: BodyId,
    /// The body that owns the second geometry.
    pub owner2: BodyId,
}

/// A live body of the registry under its name.
#[derive(Debug)]
pub struct Named {
    pub id: BodyId,
    pub key: String,
}

/// Evidence that two instances of one origin collided.
#[derive(Debug)]
pub struct CollisionPairRecord {
    pub a: BodyId,
    pub b: BodyId,
    pub origin: String,
}

/// A named body as contracts see it.
pub struct NamedView {
    pub id: BodyId,
    pub key: Seq<char>,
}

/// A record as contracts see it.
pub struct RecordView {
    pub a: BodyId,
    pub b: BodyId,
    pub origin: Seq<char>,
}

impl View for Named {
    type V = NamedView;

    open spec fn view(&self) -> NamedView {
        NamedView { id: self.id, key: self.key@ }
    }
}

impl View for CollisionPairRecord {
    type V = RecordView;

    open spec fn view(&self) -> RecordView {
        RecordView { a: self.a, b: self.b, origin: self.origin@ }
    }
}

/// The bodies of a list as contracts see them.
pub open spec fn named_views(bodies: Seq<Named>) -> Seq<NamedView> {
    Seq::new(bodies.len(), |i: int| bodies[i]@)
}

/// The records of a list as contracts see them.
pub open spec fn record_views(records: Seq<CollisionPairRecord>) -> Seq<RecordView> {
    Seq::new(records.len(), |i: int| records[i]@)
}

/// The name prefixes of scenery and of what the hand moves: bodies under
/// such names never evolve.
pub open spec fn ignore_prefix_spec(i: int) -> Seq<char> {
    if i == 0 {
        "box"@
    } else if i == 1 {
        "p_"@
    } else if i == 2 {
        "plane"@
    } else if i == 3 {
        "slope"@
    } else if i == 4 {
        "apple"@
    } else if i == 5 {
        "ball"@
    } else if i == 6 {
        "roll"@
    } else if i == 7 {
        "fvp"@
    } else if i == 8 {
        "tmv"@
    } else {
        "tm"@
    }
}

/// Whether a name starts with one of the ignored prefixes.
pub open spec fn ignored(key: Seq<char>) -> bool {
    exists|i: int| 0 <= i < IGNORE_COUNT && (#[trigger] ignore_prefix_spec(i)).is_prefix_of(key)
}

/// What the tracker keeps of a registry entry that belongs to the pair.
pub struct Hit {
    /// The owner on the other side of the pair.
    pub other: BodyId,
    /// The body of the entry.
    pub id: BodyId,
    /// The name of the body.
    pub key: Seq<char>,
}

/// The entries of the registry, in its order, that are no scenery and
/// belong to one of the two owners.
pub open spec fn hits(bodies: Seq<NamedView>, owner1: BodyId, owner2: BodyId) -> Seq<Hit>
    decreases bodies.len(),
{
    if bodies.len() == 0 {
        Seq::empty()
    } else {
        let rest = hits(bodies.drop_last(), owner1, owner2);
        let body = bodies.last();
        if ignored(body.key) {
            rest
        } else if body.id == owner1 {
            rest.push(Hit { other: owner2, id: body.id, key: body.key })
        } else if body.id == owner2 {
            rest.push(Hit { other: owner1, id: body.id, key: body.key })
        } else {
            rest
        }
    }
}

/// Whether the pair is looked at: two geometries of two bodies, neither the
/// ground, that touch.
pub open spec fn touching(probe: Probe) -> bool {
    !probe.space && !probe.ground && probe.contacts > 0 && probe.owner1 != probe.owner2
}

/// The record that a candidate pair leaves: the two owners must both stand
/// in the registry under names that are no scenery, each the other's
/// partner, and their names must be keys of one origin.
pub open spec fn pairing(probe: Probe, bodies: Seq<NamedView>) -> Option<RecordView> {
    let h = hits(bodies, probe.owner1, probe.owner2);
    if !touching(probe) {
        None
    } else if h.len() != 2 || h[0].other != h[1].id || h[0].id != h[1].other {
        None
    } else if origin_of(h[0].key) is Some && origin_of(h[0].key) == origin_of(h[1].key) {
        Some(RecordView { a: h[0].id, b: h[1].id, origin: origin_of(h[0].key)->0 })
    } else {
        None
    }
}

/// Prefix `i` of the ignored ones.
fn ignore_prefix(i: usize) -> (r: &'static str)
    requires
        i < IGNORE_COUNT,
    ensures
        r@ == ignore_prefix_spec(i as int),
{
    match i {
        0 => "box",
        1 => "p_",
        2 => "plane",
        3 => "slope",
        4 => "apple",
        5 => "ball",
        6 => "roll",
        7 => "fvp",
        8 => "tmv",
        _ => "tm",
    }
}

/// Whether `key` starts with `prefix`.
pub fn starts_with(key: &str, prefix: &str) -> (r: bool)
    ensures
        r == prefix@.is_prefix_of(key@),
{
    let n = prefix.unicode_len();
    if key.unicode_len() < n {
        return false;
    }
    let mut i: usize = 0;
    while i < n
        invariant
            0 <= i <= n,
            n == prefix@.len(),
            n <= key@.len(),
            forall|k: int| 0 <= k < i ==> key@[k] == prefix@[k],
        decreases n - i,
    {
        if key.get_char(i) != prefix.get_char(i) {
            assert(key@.subrange(0, n as int)[i as int] != prefix@[i as int]);
            return false;
        }
        i = i + 1;
    }
    assert(prefix@ =~= key@.subrange(0, n as int));
    true
}

/// Whether a body under this name is scenery that never evolves.
pub fn is_ignored(key: &str) -> (r: bool)
    ensures
        r == ignored(key@),
{
    let mut i: usize = 0;
    while i < IGNORE_COUNT
        invariant
            0 <= i <= IGNORE_COUNT,
            forall|k: int| 0 <= k < i ==> !(#[trigger] ignore_prefix_spec(k)).is_prefix_of(key@),
        decreases IGNORE_COUNT - i,
    {
        if starts_with(key, ignore_prefix(i)) {
            return true;
        }
        i = i + 1;
    }
    false
}

/// Looks at one candidate pair of the near phase: `Some` record exactly
/// where the pair is a collision of two instances of one origin.
pub fn track(probe: &Probe, bodies: &Vec<Named>) -> (r: Option<CollisionPairRecord>)
    ensures
        r is Some <==> pairing(*probe, named_views(bodies@)) is Some,
        r is Some ==> r->0@ == pairing(*probe, named_views(bodies@))->0,
{
    if probe.space || probe.ground || probe.contacts == 0 || probe.owner1 == probe.owner2 {
        return None;
    }
    let ghost views = named_views(bodies@);
    // entries that belong to the pair: the partner of each, and where it stands
    let mut others: Vec<BodyId> = Vec::new();
    let mut places: Vec<usize> = Vec::new();
    let ghost mut found: Seq<Hit> = Seq::empty();
    let mut i: usize = 0;
    while i < bodies.len()
        invariant
            0 <= i <= bodies@.len(),
            views == named_views(bodies@),
            found == hits(views.subrange(0, i as int), probe.owner1, probe.owner2),
            others@.len() == found.len(),
            places@.len() == found.len(),
            forall|k: int| 0 <= k < found.len() ==> (#[trigger] places@[k]) < i,
            forall|k: int| 0 <= k < found.len() ==> (#[trigger] found[k]).other == others@[k],
            forall|k: int| 0 <= k < found.len() ==> (#[trigger] found[k]).id == bodies@[places@[k] as int].id,
            forall|k: int| 0 <= k < found.len() ==> (#[trigger] found[k]).key == bodies@[places@[k] as int].key@,
        decreases bodies@.len() - i,
    {
        let body = &bodies[i];
        let ghost before = found;
        proof {
            let upto = views.subrange(0, i + 1);
            assert(upto.drop_last() =~= views.subrange(0, i as int));
            assert(upto.last() == body@);
            found = hits(upto, probe.owner1, probe.owner2);
        }
        if !is_ignored(body.key.as_str()) {
            if body.id == probe.owner1 {
                others.push(probe.owner2);
                places.push(i);
                assert(found == before.push(Hit { other: probe.owner2, id: body.id, key: body.key@ }));
            } else if body.id == probe.owner2 {
                others.push(probe.owner1);
                places.push(i);
                assert(found == before.push(Hit { other: probe.owner1, id: body.id, key: body.key@ }));
            } else {
                assert(found == before);
            }
        } else {
            assert(found == before);
        }
        proof {
            assert forall|k: int| 0 <= k < found.len() implies (#[trigger] found[k]).other == others@[k] by {
                if k < before.len() {
                    assert(found[k] == before[k]);
                }
            }
            assert forall|k: int| 0 <= k < found.len() implies (#[trigger] found[k]).id == bodies@[places@[k] as int].id by {
                if k < before.len() {
                    assert(found[k] == before[k]);
                }
            }
            assert forall|k: int| 0 <= k < found.len() implies (#[trigger] found[k]).key == bodies@[places@[k] as int].key@ by {
                if k < before.len() {
                    assert(found[k] == before[k]);
                }
            }
        }
        i = i + 1;
    }
    proof {
        assert(views.subrange(0, bodies@.len() as int) =~= views);
    }
    if places.len() != 2 {
        return None;
    }
    let first = &bodies[places[0]];
    let second = &bodies[places[1]];
    if others[0] != second.id || first.id != others[1] {
        return None;
    }
    let origin1 = parse_origin(first.key.as_str());
    let origin2 = parse_origin(second.key.as_str());
    match (origin1, origin2) {
        (Some(o1), Some(o2)) => {
            if o1 == o2 {
                Some(CollisionPairRecord { a: first.id, b: second.id, origin: o1 })
            } else {
                None
            }
        },
        _ => None,
    }
}


/// No two bodies of the list share a handle.
pub open spec fn distinct_ids(bodies: Seq<NamedView>) -> bool {
    forall|i: int, j: int| 0 <= i < j < bodies.len() ==> (#[trigger] bodies[i]).id != (#[trigger] bodies[j]).id
}

/// Whether an entry of the registry is kept for the pair.
pub open spec fn is_hit(body: NamedView, owner1: BodyId, owner2: BodyId) -> bool {
    !ignored(body.key) && (body.id == owner1 || body.id == owner2)
}

/// What is kept of an entry that belongs to the pair.
pub open spec fn hit_of(body: NamedView, owner1: BodyId, owner2: BodyId) -> Hit {
    Hit { other: if body.id == owner1 { owner2 } else { owner1 }, id: body.id, key: body.key }
}

/// A registry without an entry for the pair leaves no hit.
proof fn lemma_hits_none(bodies: Seq<NamedView>, owner1: BodyId, owner2: BodyId)
    requires
        forall|k: int| 0 <= k < bodies.len() ==> !is_hit(#[trigger] bodies[k], owner1, owner2),
    ensures
        hits(bodies, owner1, owner2) == Seq::<Hit>::empty(),
    decreases bodies.len(),
{
    if bodies.len() > 0 {
        let front = bodies.drop_last();
        assert forall|k: int| 0 <= k < front.len() implies !is_hit(#[trigger] front[k], owner1, owner2) by {
            assert(front[k] == bodies[k]);
        }
        lemma_hits_none(front, owner1, owner2);
        assert(!is_hit(bodies[bodies.len() - 1], owner1, owner2));
    }
}

/// A registry with one entry for the pair leaves that hit.
proof fn lemma_hits_one(bodies: Seq<NamedView>, owner1: BodyId, owner2: BodyId, i: int)
    requires
        0 <= i < bodies.len(),
        is_hit(bodies[i], owner1, owner2),
        forall|k: int| 0 <= k < bodies.len() && k != i ==> !is_hit(#[trigger] bodies[k], owner1, owner2),
    ensures
        hits(bodies, owner1, owner2) == seq![hit_of(bodies[i], owner1, owner2)],
    decreases bodies.len(),
{
    let front = bodies.drop_last();
    if i == bodies.len() - 1 {
        assert forall|k: int| 0 <= k < front.len() implies !is_hit(#[trigger] front[k], owner1, owner2) by {
            assert(front[k] == bodies[k]);
        }
        lemma_hits_none(front, owner1, owner2);
        assert(hits(bodies, owner1, owner2) =~= seq![hit_of(bodies[i], owner1, owner2)]);
    } else {
        assert forall|k: int| 0 <= k < front.len() && k != i implies !is_hit(#[trigger] front[k], owner1, owner2) by {
            assert(front[k] == bodies[k]);
        }
        assert(front[i] == bodies[i]);
        lemma_hits_one(front, owner1, owner2, i);
        assert(!is_hit(bodies[bodies.len() - 1], owner1, owner2));
    }
}

/// A registry with two entries for the pair leaves these two hits, in its order.
proof fn lemma_hits_two(bodies: Seq<NamedView>, owner1: BodyId, owner2: BodyId, i: int, j: int)
    requires
        0 <= i < j < bodies.len(),
        is_hit(bodies[i], owner1, owner2),
        is_hit(bodies[j], owner1, owner2),
        forall|k: int| 0 <= k < bodies.len() && k != i && k != j ==> !is_hit(#[trigger] bodies[k], owner1, owner2),
    ensures
        hits(bodies, owner1, owner2) == seq![hit_of(bodies[i], owner1, owner2), hit_of(bodies[j], owner1, owner2)],
    decreases bodies.len(),
{
    let front = bodies.drop_last();
    assert(front[i] == bodies[i]);
    if j == bodies.len() - 1 {
        assert forall|k: int| 0 <= k < front.len() && k != i implies !is_hit(#[trigger] front[k], owner1, owner2) by {
            assert(front[k] == bodies[k]);
        }
        lemma_hits_one(front, owner1, owner2, i);
        assert(hits(bodies, owner1, owner2) =~= seq![
            hit_of(bodies[i], owner1, owner2),
            hit_of(bodies[j], owner1, owner2),
        ]);
    } else {
        assert forall|k: int| 0 <= k < front.len() && k != i && k != j implies !is_hit(
            #[trigger] front[k],
            owner1,
            owner2,
        ) by {
            assert(front[k] == bodies[k]);
        }
        assert(front[j] == bodies[j]);
        lemma_hits_two(front, owner1, owner2, i, j);
        assert(!is_hit(bodies[bodies.len() - 1], owner1, owner2));
    }
}

/// Two touching instances of one origin, neither under a scenery name,
/// leave exactly one record: of the two, in the order of the registry, and
/// of their origin. This holds whatever else the registry holds and
/// whichever of the two owns the first geometry.
pub proof fn lemma_same_origin_pair_is_recorded(
    probe: Probe,
    bodies: Seq<NamedView>,
    i: int,
    j: int,
    origin: Seq<char>,
    t1: nat,
    t2: nat,
)
    requires
        touching(probe),
        distinct_ids(bodies),
        0 <= i < j < bodies.len(),
        (bodies[i].id == probe.owner1 && bodies[j].id == probe.owner2) || (bodies[i].id == probe.owner2 && bodies[j].id
            == probe.owner1),
        crate::key::valid_origin(origin),
        bodies[i].key == crate::key::key_of(origin, t1),
        bodies[j].key == crate::key::key_of(origin, t2),
        !ignored(bodies[i].key),
        !ignored(bodies[j].key),
    ensures
        pairing(probe, bodies) == Some(RecordView { a: bodies[i].id, b: bodies[j].id, origin: origin }),
{
    crate::key::lemma_key_round_trip(origin, t1);
    crate::key::lemma_key_round_trip(origin, t2);
    lemma_hits_two(bodies, probe.owner1, probe.owner2, i, j);
}

/// A pair with a body under a scenery name leaves no record, whatever the
/// other body is.
pub proof fn lemma_scenery_is_never_recorded(probe: Probe, bodies: Seq<NamedView>, i: int)
    requires
        distinct_ids(bodies),
        0 <= i < bodies.len(),
        bodies[i].id == probe.owner1 || bodies[i].id == probe.owner2,
        ignored(bodies[i].key),
    ensures
        pairing(probe, bodies) is None,
{
    if touching(probe) {
        if exists|j: int| 0 <= j < bodies.len() && is_hit(#[trigger] bodies[j], probe.owner1, probe.owner2) {
            let j = choose|j: int| 0 <= j < bodies.len() && is_hit(#[trigger] bodies[j], probe.owner1, probe.owner2);
            assert forall|k: int| 0 <= k < bodies.len() && k != j implies !is_hit(
                #[trigger] bodies[k],
                probe.owner1,
                probe.owner2,
            ) by {
                if is_hit(bodies[k], probe.owner1, probe.owner2) {
                    // two hits stand for the two owners, and one of the owners is scenery
                    assert(bodies[k].id != bodies[j].id);
                    assert(bodies[k].id == bodies[i].id || bodies[j].id == bodies[i].id);
                }
            }
            lemma_hits_one(bodies, probe.owner1, probe.owner2, j);
        } else {
            lemma_hits_none(bodies, probe.owner1, probe.owner2);
        }
    }
}

/// A pair of which a body does not stand in the registry leaves no record.
pub proof fn lemma_stranger_is_never_recorded(probe: Probe, bodies: Seq<NamedView>)
    requires
        distinct_ids(bodies),
        (forall|k: int| 0 <= k < bodies.len() ==> (#[trigger] bodies[k]).id != probe.owner1) || (forall|k: int|
            0 <= k < bodies.len() ==> (#[trigger] bodies[k]).id != probe.owner2),
    ensures
        pairing(probe, bodies) is None,
{
    if touching(probe) {
        if exists|j: int| 0 <= j < bodies.len() && is_hit(#[trigger] bodies[j], probe.owner1, probe.owner2) {
            let j = choose|j: int| 0 <= j < bodies.len() && is_hit(#[trigger] bodies[j], probe.owner1, probe.owner2);
            assert forall|k: int| 0 <= k < bodies.len() && k != j implies !is_hit(
                #[trigger] bodies[k],
                probe.owner1,
                probe.owner2,
            ) by {
                if is_hit(bodies[k], probe.owner1, probe.owner2) {
                    assert(bodies[k].id != bodies[j].id);
                }
            }
            lemma_hits_one(bodies, probe.owner1, probe.owner2, j);
        } else {
            lemma_hits_none(bodies, probe.owner1, probe.owner2);
        }
    }
}

/// The first two characters of each ignored prefix.
proof fn lemma_prefix_heads()
    ensures
        ignore_prefix_spec(0).len() >= 2 && ignore_prefix_spec(0)[0] == 'b' && ignore_prefix_spec(0)[1] == 'o',
        ignore_prefix_spec(1).len() >= 2 && ignore_prefix_spec(1)[0] == 'p' && ignore_prefix_spec(1)[1] == '_',
        ignore_prefix_spec(2).len() >= 2 && ignore_prefix_spec(2)[0] == 'p' && ignore_prefix_spec(2)[1] == 'l',
        ignore_prefix_spec(3).len() >= 2 && ignore_prefix_spec(3)[0] == 's' && ignore_prefix_spec(3)[1] == 'l',
        ignore_prefix_spec(4).len() >= 2 && ignore_prefix_spec(4)[0] == 'a' && ignore_prefix_spec(4)[1] == 'p',
        ignore_prefix_spec(5).len() >= 2 && ignore_prefix_spec(5)[0] == 'b' && ignore_prefix_spec(5)[1] == 'a',
        ignore_prefix_spec(6).len() >= 2 && ignore_prefix_spec(6)[0] == 'r' && ignore_prefix_spec(6)[1] == 'o',
        ignore_prefix_spec(7).len() >= 2 && ignore_prefix_spec(7)[0] == 'f' && ignore_prefix_spec(7)[1] == 'v',
        ignore_prefix_spec(8).len() >= 2 && ignore_prefix_spec(8)[0] == 't' && ignore_prefix_spec(8)[1] == 'm',
        ignore_prefix_spec(9).len() >= 2 && ignore_prefix_spec(9)[0] == 't' && ignore_prefix_spec(9)[1] == 'm',
{
    reveal_strlit("box");
    reveal_strlit("p_");
    reveal_strlit("plane");
    reveal_strlit("slope");
    reveal_strlit("apple");
    reveal_strlit("ball");
    reveal_strlit("roll");
    reveal_strlit("fvp");
    reveal_strlit("tmv");
    reveal_strlit("tm");
}

/// A name whose first two characters are those of no ignored prefix is no
/// scenery name.
proof fn lemma_not_ignored(key: Seq<char>)
    requires
        key.len() >= 2,
        !(key[0] == 'b' && key[1] == 'o'),
        !(key[0] == 'p' && key[1] == '_'),
        !(key[0] == 'p' && key[1] == 'l'),
        !(key[0] == 's' && key[1] == 'l'),
        !(key[0] == 'a' && key[1] == 'p'),
        !(key[0] == 'b' && key[1] == 'a'),
        !(key[0] == 'r' && key[1] == 'o'),
        !(key[0] == 'f' && key[1] == 'v'),
        !(key[0] == 't' && key[1] == 'm'),
    ensures
        !ignored(key),
{
    lemma_prefix_heads();
    assert forall|i: int| 0 <= i < IGNORE_COUNT implies !(#[trigger] ignore_prefix_spec(i)).is_prefix_of(key) by {
        let p = ignore_prefix_spec(i);
        if p.is_prefix_of(key) {
            assert(key.subrange(0, p.len() as int)[0] == key[0]);
            assert(key.subrange(0, p.len() as int)[1] == key[1]);
        }
    }
}

/// No instance of a solid stands under a scenery name: the key of every
/// solid, whenever made, is looked at by the tracker.
pub proof fn lemma_instances_are_not_ignored(kind: PE, t: nat)
    ensures
        !ignored(crate::key::key_of(kind.name_spec(), t)),
{
    let name = kind.name_spec();
    let key = crate::key::key_of(name, t);
    match kind {
        PE::ETetra => {
            reveal_strlit("tetra");
        },
        PE::ECube => {
            reveal_strlit("cube");
        },
        PE::ECubeCenter => {
            reveal_strlit("cube_center");
        },
        PE::EOcta => {
            reveal_strlit("octa");
        },
        PE::ERSphere => {
            reveal_strlit("r_sphere");
        },
        PE::ECylinder => {
            reveal_strlit("cylinder");
        },
        PE::ECapsule => {
            reveal_strlit("capsule");
        },
        PE::ECone => {
            reveal_strlit("cone");
        },
        PE::ETorus => {
            reveal_strlit("torus");
        },
        PE::ERTorus => {
            reveal_strlit("r_torus");
        },
        PE::ERing => {
            reveal_strlit("ring");
        },
        PE::ETube => {
            reveal_strlit("tube");
        },
        PE::EHalfPipe => {
            reveal_strlit("half_pipe");
        },
        PE::EPin => {
            reveal_strlit("pin");
        },
        PE::ERevolutionN0 => {
            reveal_strlit("revolution");
        },
        PE::ERevolutionN1 => {
            reveal_strlit("revolution");
        },
        PE::EIcosahedronN0 => {
            reveal_strlit("icosahedron");
        },
        PE::EIcosahedronN1 => {
            reveal_strlit("icosahedron");
        },
        PE::EDodecahedronN0 => {
            reveal_strlit("dodecahedron");
        },
        PE::EDodecahedronN1 => {
            reveal_strlit("dodecahedron");
        },
        PE::EDodecahedronCenterN0 => {
            reveal_strlit("dodecahedron_center");
        },
        PE::EDodecahedronCenterN1 => {
            reveal_strlit("dodecahedron_center");
        },
        PE::EC60N0 => {
            reveal_strlit("c60");
        },
        PE::EC60N1 => {
            reveal_strlit("c60");
        },
        PE::EC60CenterN0 => {
            reveal_strlit("c60_center");
        },
        PE::EC60CenterN1 => {
            reveal_strlit("c60_center");
        },
        PE::End => {
            reveal_strlit("nothing");
        },
    }
    assert(name.len() >= 3);
    assert(key[0] == name[0]);
    assert(key[1] == name[1]);
    lemma_not_ignored(key);
}

/// A small box is scenery.
pub proof fn lemma_box_small_is_ignored()
    ensures
        ignored("box_small"@),
{
    reveal_strlit("box");
    reveal_strlit("box_small");
    assert("box"@ =~= "box_small"@.subrange(0, 3));
    assert(ignore_prefix_spec(0).is_prefix_of("box_small"@));
}

} // verus!
