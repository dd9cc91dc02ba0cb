//! The engine: what it remembers between frames, and what it decides when
//! the frame loop reports a candidate pair, a finished step or a key.

use rand::rngs::ThreadRng;
use std::time::Instant;
use vstd::prelude::*;
use vstd::string::*;
use crate::action::{
    action_views, as_spawn, claimed, claims_slot, destroyed, lemma_claimed_append, lemma_claimed_by,
    lemma_claimed_by_none, Action, ActionView, Reading, Spawn, SpawnView,
};
use crate::cache::is_slot;
use crate::cache::SlotCache;
use crate::command::{decode, decoded, Command};
use crate::evolution::EvolutionGraph;
use crate::generator::{generated, has_table, is_tabled};
use crate::solids::MAX_SCALE;
use crate::key::{key_of, make_key, origin_of, parse_origin};
use crate::kind::{kind_at, Phase, KIND_COUNT, PE, TINT_COUNT};
use crate::outside;
use crate::space::{midpoint_spec, nudge, nudged, Point};
use crate::tracker::{named_views, pairing, record_views, track, BodyId, CollisionPairRecord, Named, Probe, RecordView};

verus! {

/// A live body and where it is.
#[derive(Debug, Clone, Copy, PartialEq, Eq, Structural)]
pub struct Placed {
    pub id: BodyId,
    pub at: Point,
}

/// The state of the engine.
pub struct SimApp {
    /// What the cursor is doing.
    pub phase: Phase,
    /// Name of the instance that the cursor holds; empty where it holds none.
    pub current: String,
    /// Where the cursor is.
    pub pos: Point,
    /// The solid that the cursor dropped last.
    pub nexpe: PE,
    /// Which solid follows a pair of an origin.
    pub evo: EvolutionGraph,
    /// Collisions of this step that wait for the drain.
    pub ebps: Vec<CollisionPairRecord>,
    /// Whether collisions are reported.
    pub i: bool,
    /// Whether their contacts are reported too.
    pub j: bool,
    /// Ordinal of the solid that the cursor drops, and that follows a pair
    /// whose origin the graph does not map.
    pub u: usize,
    /// The meshes.
    pub tm: SlotCache,
    /// Chance.
    pub rng: ThreadRng,
    /// When the engine started.
    pub t: Instant,
}

/// Where the first entry of `id` from place `from` on says the body is.
pub open spec fn place_from(live: Seq<Placed>, id: BodyId, from: int) -> Option<Point>
    decreases live.len() - from,
{
    if from < 0 || from >= live.len() {
        None
    } else if live[from].id == id {
        Some(live[from].at)
    } else {
        place_from(live, id, from + 1)
    }
}

/// Where the snapshot says the body is; `None` for a body that is not in it.
pub open spec fn place_of(live: Seq<Placed>, id: BodyId) -> Option<Point> {
    place_from(live, id, 0)
}

/// Where a body is for the next record of a drain: nowhere once the drain
/// has destroyed it.
pub open spec fn seen(done: Seq<ActionView>, live: Seq<Placed>, id: BodyId) -> Option<Point> {
    if destroyed(done).contains(id) {
        None
    } else {
        place_of(live, id)
    }
}

/// Where the snapshot says the body is.
pub fn find_place(live: &Vec<Placed>, id: BodyId) -> (r: Option<Point>)
    ensures
        r == place_of(live@, id),
{
    let mut i: usize = 0;
    while i < live.len()
        invariant
            0 <= i <= live@.len(),
            place_of(live@, id) == place_from(live@, id, i as int),
        decreases live@.len() - i,
    {
        if live[i].id == id {
            return Some(live[i].at);
        }
        i = i + 1;
    }
    None
}

/// Whether the list holds the body.
fn holds(gone: &Vec<BodyId>, id: BodyId) -> (r: bool)
    ensures
        r == gone@.contains(id),
{
    let mut i: usize = 0;
    while i < gone.len()
        invariant
            0 <= i <= gone@.len(),
            forall|k: int| 0 <= k < i ==> gone@[k] != id,
        decreases gone@.len() - i,
    {
        if gone[i] == id {
            return true;
        }
        i = i + 1;
    }
    false
}

impl SimApp {
    /// What every engine keeps: a sound graph and a sound cache.
    pub open spec fn wf(&self) -> bool {
        self.evo.wf() && self.tm.wf()
    }

    /// All but the queue, the cache and chance is as in `old`.
    pub open spec fn same_settings(&self, old: &SimApp) -> bool {
        &&& self.phase == old.phase
        &&& self.current@ == old.current@
        &&& self.pos == old.pos
        &&& self.nexpe == old.nexpe
        &&& self.evo == old.evo
        &&& self.i == old.i
        &&& self.j == old.j
        &&& self.u == old.u
        &&& self.t == old.t
    }

    /// The cache is as in `old`, but for slots that were put in use.
    pub open spec fn cache_grown(&self, old: &SimApp) -> bool {
        &&& forall|k: PE, p: int| #[trigger] self.tm.mesh(k, p) == old.tm.mesh(k, p)
        &&& forall|k: PE, p: int| #[trigger] self.tm.star_shaped(k, p) == old.tm.star_shaped(k, p)
        &&& forall|k: PE, p: int| old.tm.in_use(k, p) ==> #[trigger] self.tm.in_use(k, p)
    }

    /// The slots in use are those that were in use in `old` and those that
    /// `actions` put in use.
    pub open spec fn in_use_after(&self, old: &SimApp, actions: Seq<ActionView>) -> bool {
        forall|k: PE, p: int|
            #[trigger] self.tm.in_use(k, p) == (old.tm.in_use(k, p) || (is_slot(k, p) && claimed(
                actions,
                k.family_spec(),
                p,
            )))
    }

    /// Lists that put the same slots in use leave the same slots in use.
    pub proof fn lemma_in_use_alike(&self, old: &SimApp, a: Seq<ActionView>, b: Seq<ActionView>)
        requires
            self.in_use_after(old, a),
            forall|family: int, parity: int| #[trigger] claimed(a, family, parity) == claimed(b, family, parity),
        ensures
            self.in_use_after(old, b),
    {
        assert forall|k: PE, p: int|
            #[trigger] self.tm.in_use(k, p) == (old.tm.in_use(k, p) || (is_slot(k, p) && claimed(
                b,
                k.family_spec(),
                p,
            ))) by {
            assert(claimed(a, k.family_spec(), p) == claimed(b, k.family_spec(), p));
        }
    }

    /// What is in use after two lists of requests in a row.
    pub proof fn lemma_in_use_after(&self, mid: &SimApp, old: &SimApp, a: Seq<ActionView>, b: Seq<ActionView>)
        requires
            mid.in_use_after(old, a),
            self.in_use_after(mid, b),
        ensures
            self.in_use_after(old, a + b),
    {
        assert forall|k: PE, p: int|
            #[trigger] self.tm.in_use(k, p) == (old.tm.in_use(k, p) || (is_slot(k, p) && claimed(
                a + b,
                k.family_spec(),
                p,
            ))) by {
            lemma_claimed_append(a, b, k.family_spec(), p);
            assert(mid.tm.in_use(k, p) == (old.tm.in_use(k, p) || (is_slot(k, p) && claimed(a, k.family_spec(), p))));
        }
    }

    /// The instance of `kind` that is created at `at`: none where the slot
    /// of the solid holds no mesh.
    pub open spec fn spawned(&self, kind: PE, at: Point, pose: int, tint: int, nanos: u128) -> Option<SpawnView> {
        if self.tm.mesh(kind, kind.parity_spec()) is Some {
            Some(
                SpawnView {
                    key: key_of(kind.name_spec(), nanos as nat),
                    kind: kind,
                    parity: kind.parity_spec(),
                    at: at,
                    pose: pose,
                    tint: tint,
                },
            )
        } else {
            None
        }
    }

    /// The instance that is dropped for ordinal `i`: of the solid of that
    /// ordinal, taken round the family, in the pose of the solid and the
    /// tint of the second.
    pub open spec fn dropped(&self, i: int, at: Point, reading: Reading) -> Option<SpawnView> {
        let kind = kind_at(i % (KIND_COUNT as int));
        self.spawned(kind, at, kind.pose_spec(), (reading.secs % (TINT_COUNT as u64)) as int, reading.nanos)
    }

    /// Ordinal of the solid that follows a pair of `origin`.
    pub open spec fn heir(&self, origin: Seq<char>) -> int {
        if self.evo@.contains_key(origin) {
            self.evo@[origin].ordinal()
        } else {
            self.u as int
        }
    }

    /// What one record of the queue leads to, given where its two bodies
    /// are. Where both are there and the successor can be created, both are
    /// destroyed and the successor is created half way between them and
    /// released. Where the successor cannot be created, nothing is done.
    /// Where one body is gone, the other is destroyed and nothing follows.
    pub open spec fn merged(&self, record: RecordView, pa: Option<Point>, pb: Option<Point>, reading: Reading) -> Seq<
        ActionView,
    > {
        if record.a == record.b {
            Seq::empty()
        } else if pa is Some && pb is Some {
            match self.dropped(self.heir(record.origin), midpoint_spec(pa->0, pb->0), reading) {
                Some(s) => seq![
                    ActionView::Destroy(record.b),
                    ActionView::Destroy(record.a),
                    ActionView::Spawn(s),
                    ActionView::Release(s.key),
                ],
                None => Seq::empty(),
            }
        } else if pa is Some {
            seq![ActionView::Destroy(record.a)]
        } else if pb is Some {
            seq![ActionView::Destroy(record.b)]
        } else {
            Seq::empty()
        }
    }

    /// What a drain of `records` leads to, record by record. A body that an
    /// earlier record of the drain destroyed is gone for the later ones.
    pub open spec fn drained(&self, records: Seq<RecordView>, live: Seq<Placed>, readings: Seq<Reading>) -> Seq<
        ActionView,
    >
        decreases records.len(),
    {
        if records.len() == 0 {
            Seq::empty()
        } else {
            let done = self.drained(records.drop_last(), live, readings.drop_last());
            let record = records.last();
            done + self.merged(record, seen(done, live, record.a), seen(done, live, record.b), readings.last())
        }
    }

    /// An engine at rest: nothing held, nothing queued, every slot vacant,
    /// the cursor where it starts and the sphere as the solid dropped last.
    pub fn new(evo: EvolutionGraph) -> (sim: SimApp)
        requires
            evo.wf(),
        ensures
            sim.wf(),
            sim.phase == Phase::PHold,
            sim.current@.len() == 0,
            sim.pos.x == -2_000_000 && sim.pos.y == 0 && sim.pos.z == 6_000_000,
            sim.nexpe == PE::ERSphere,
            sim.evo == evo,
            sim.ebps@.len() == 0,
            !sim.i,
            !sim.j,
            sim.u == 0,
            forall|kind: PE, parity: int| #[trigger] sim.tm.mesh(kind, parity) is None,
            forall|kind: PE, parity: int| !#[trigger] sim.tm.in_use(kind, parity),
    {
        SimApp {
            phase: Phase::PHold,
            current: String::new(),
            pos: Point { x: -2_000_000, y: 0, z: 6_000_000 },
            nexpe: PE::ERSphere,
            evo,
            ebps: Vec::new(),
            i: false,
            j: false,
            u: 0,
            tm: SlotCache::new(),
            rng: outside::thread_rng(),
            t: outside::now(),
        }
    }

    /// Reads the clock: what has passed since the engine started.
    fn reading(&self) -> (r: Reading) {
        let span = outside::elapsed(&self.t);
        Reading { nanos: outside::as_nanos(&span), secs: outside::as_secs(&span) }
    }

    /// A fresh key for an instance of origin `s`: the key of `s` and of the
    /// time that the clock gives.
    pub fn ts(&mut self, s: &str) -> (key: String)
        ensures
            exists|t: u128| key@ == key_of(s@, t as nat),
            *final(self) == *old(self),
    {
        let r = self.reading();
        make_key(s, r.nanos)
    }

    /// The origin that the key `s` carries.
    pub fn ts_rm(&self, s: &str) -> (origin: Option<String>)
        ensures
            origin is Some <==> origin_of(s@) is Some,
            origin is Some ==> origin->0@ == origin_of(s@)->0,
    {
        parse_origin(s)
    }

    /// Takes one candidate pair of the near phase: where the pair is a
    /// collision of two instances of one origin, its record joins the queue.
    pub fn near_callback(&mut self, probe: &Probe, bodies: &Vec<Named>)
        ensures
            record_views(final(self).ebps@) == (match pairing(*probe, named_views(bodies@)) {
                Some(record) => record_views(old(self).ebps@).push(record),
                None => record_views(old(self).ebps@),
            }),
            final(self).same_settings(old(self)),
            final(self).tm == old(self).tm,
            final(self).rng == old(self).rng,
    {
        match track(probe, bodies) {
            Some(record) => {
                let ghost before = record_views(self.ebps@);
                self.ebps.push(record);
                assert(record_views(self.ebps@) =~= before.push(record@));
            },
            None => {},
        }
    }
}


/// The requests of two lists in a row are seen as the two lists of views in a row.
pub proof fn lemma_views_append(a: Seq<Action>, b: Seq<Action>)
    ensures
        action_views(a + b) == action_views(a) + action_views(b),
{
    assert(action_views(a + b) =~= action_views(a) + action_views(b));
}

/// What two lists in a row destroy is what the first destroys and then what
/// the second destroys.
pub proof fn lemma_destroyed_append(a: Seq<ActionView>, b: Seq<ActionView>)
    ensures
        destroyed(a + b) == destroyed(a) + destroyed(b),
    decreases b.len(),
{
    if b.len() == 0 {
        assert(a + b =~= a);
        assert(destroyed(a) + destroyed(b) =~= destroyed(a));
    } else {
        assert((a + b).drop_last() =~= a + b.drop_last());
        assert((a + b).last() == b.last());
        lemma_destroyed_append(a, b.drop_last());
        assert(destroyed(a + b) =~= destroyed(a) + destroyed(b));
    }
}

/// Adds to `gone` the bodies that `actions` destroys.
fn note_destroyed(gone: &mut Vec<BodyId>, actions: &Vec<Action>)
    ensures
        final(gone)@ == old(gone)@ + destroyed(action_views(actions@)),
{
    let ghost all = action_views(actions@);
    let mut i: usize = 0;
    while i < actions.len()
        invariant
            0 <= i <= actions@.len(),
            all == action_views(actions@),
            gone@ == old(gone)@ + destroyed(all.subrange(0, i as int)),
        decreases actions@.len() - i,
    {
        proof {
            let upto = all.subrange(0, i + 1);
            assert(upto.drop_last() =~= all.subrange(0, i as int));
            assert(upto.last() == actions@[i as int]@);
        }
        match &actions[i] {
            Action::Destroy(id) => {
                gone.push(*id);
                assert(gone@ =~= old(gone)@ + destroyed(all.subrange(0, i + 1)));
            },
            _ => {},
        }
        i = i + 1;
    }
    proof {
        assert(all.subrange(0, actions@.len() as int) =~= all);
    }
}

impl SimApp {
    /// Creates an instance of `kind` at `at` from the slot of the solid,
    /// which is put in use; named by the key of the solid and the time
    /// `nanos`. `None`, and nothing changed, where the slot holds no mesh.
    pub fn spawn(&mut self, kind: PE, at: Point, pose: usize, tint: usize, nanos: u128) -> (r: Option<Spawn>)
        requires
            old(self).wf(),
        ensures
            final(self).wf(),
            r is Some <==> old(self).spawned(kind, at, pose as int, tint as int, nanos) is Some,
            r is Some ==> r->0@ == old(self).spawned(kind, at, pose as int, tint as int, nanos)->0,
            r is Some ==> final(self).tm.in_use(kind, kind.parity_spec()),
            r is None ==> final(self).tm == old(self).tm,
            final(self).same_settings(old(self)),
            final(self).cache_grown(old(self)),
            final(self).in_use_after(old(self), as_spawn(r)),
            final(self).ebps == old(self).ebps,
            final(self).rng == old(self).rng,
    {
        let parity = kind.parity();
        if !self.tm.claim(kind, parity) {
            proof {
                assert forall|k: PE, p: int|
                    #[trigger] self.tm.in_use(k, p) == (old(self).tm.in_use(k, p) || (is_slot(k, p) && claimed(
                        Seq::<ActionView>::empty(),
                        k.family_spec(),
                        p,
                    ))) by {
                    lemma_claimed_by_none(Seq::<ActionView>::empty(), k.family_spec(), p);
                }
            }
            return None;
        }
        let key = make_key(kind.name(), nanos);
        let spawn = Spawn { key, kind, parity, at, pose, tint };
        proof {
            let acts = seq![ActionView::Spawn(spawn@)];
            assert forall|k: PE, p: int|
                #[trigger] self.tm.in_use(k, p) == (old(self).tm.in_use(k, p) || (is_slot(k, p) && claimed(
                    acts,
                    k.family_spec(),
                    p,
                ))) by {
                lemma_claimed_by(acts, 0, k.family_spec(), p);
            }
        }
        Some(spawn)
    }

    /// Drops an instance for ordinal `i` at `p`, at the time of `reading`:
    /// of the solid of that ordinal, taken round the family.
    pub fn create_polyhedron_at(&mut self, i: usize, p: Point, reading: Reading) -> (r: Option<Spawn>)
        requires
            old(self).wf(),
        ensures
            final(self).wf(),
            r is Some <==> old(self).dropped(i as int, p, reading) is Some,
            r is Some ==> r->0@ == old(self).dropped(i as int, p, reading)->0,
            r is None ==> final(self).tm == old(self).tm,
            final(self).same_settings(old(self)),
            final(self).cache_grown(old(self)),
            final(self).in_use_after(old(self), as_spawn(r)),
            final(self).ebps == old(self).ebps,
            final(self).rng == old(self).rng,
    {
        match PE::from_usize(i % KIND_COUNT) {
            Some(kind) => {
                let tint = (reading.secs % (TINT_COUNT as u64)) as usize;
                self.spawn(kind, p, kind.pose(), tint, reading.nanos)
            },
            None => {
                proof {
                    assert forall|k: PE, q: int|
                        #[trigger] self.tm.in_use(k, q) == (old(self).tm.in_use(k, q) || (is_slot(k, q) && claimed(
                            Seq::<ActionView>::empty(),
                            k.family_spec(),
                            q,
                        ))) by {
                        lemma_claimed_by_none(Seq::<ActionView>::empty(), k.family_spec(), q);
                    }
                }
                None
            },
        }
    }

    /// Drops an instance for ordinal `i` at `p`, now. Whatever the clock
    /// gives, the instance is the one dropped at some time.
    pub fn create_polyhedron(&mut self, i: usize, p: Point) -> (r: Option<Spawn>)
        requires
            old(self).wf(),
        ensures
            final(self).wf(),
            exists|reading: Reading|
                {
                    &&& r is Some <==> (#[trigger] old(self).dropped(i as int, p, reading)) is Some
                    &&& r is Some ==> r->0@ == old(self).dropped(i as int, p, reading)->0
                },
            r is None ==> final(self).tm == old(self).tm,
            final(self).same_settings(old(self)),
            final(self).cache_grown(old(self)),
            final(self).in_use_after(old(self), as_spawn(r)),
            final(self).ebps == old(self).ebps,
            final(self).rng == old(self).rng,
    {
        let reading = self.reading();
        let r = self.create_polyhedron_at(i, p, reading);
        proof {
            let d = old(self).dropped(i as int, p, reading);
            assert(r is Some <==> d is Some);
        }
        r
    }

    /// Ordinal of the solid that follows a pair of `origin`: of the solid
    /// that the graph maps the origin to, else the ordinal that the cursor
    /// drops.
    pub fn successor(&self, origin: &str) -> (i: usize)
        requires
            self.wf(),
        ensures
            i == self.heir(origin@),
    {
        match self.evo.find_next(origin) {
            Some(kind) => kind.index(),
            None => self.u,
        }
    }

    /// Decides what one record of the queue leads to, given where its two
    /// bodies are and the time.
    pub fn merge(&mut self, record: &CollisionPairRecord, pa: Option<Point>, pb: Option<Point>, reading: Reading) -> (actions: Vec<Action>)
        requires
            old(self).wf(),
        ensures
            final(self).wf(),
            action_views(actions@) == old(self).merged(record@, pa, pb, reading),
            actions@.len() == 0 ==> final(self).tm == old(self).tm,
            final(self).same_settings(old(self)),
            final(self).cache_grown(old(self)),
            final(self).in_use_after(old(self), action_views(actions@)),
            final(self).ebps == old(self).ebps,
            final(self).rng == old(self).rng,
    {
        let mut actions: Vec<Action> = Vec::new();
        if record.a == record.b {
            assert(action_views(actions@) =~= Seq::<ActionView>::empty());
            return actions;
        }
        match (pa, pb) {
            (Some(p), Some(q)) => {
                let heir = self.successor(record.origin.as_str());
                match self.create_polyhedron_at(heir, Point::midpoint(p, q), reading) {
                    Some(s) => {
                        let key = s.key.clone();
                        actions.push(Action::Destroy(record.b));
                        actions.push(Action::Destroy(record.a));
                        actions.push(Action::Spawn(s));
                        actions.push(Action::Release(key));
                        assert(action_views(actions@) =~= old(self).merged(record@, pa, pb, reading));
                    },
                    None => {
                        assert(action_views(actions@) =~= Seq::<ActionView>::empty());
                    },
                }
            },
            (Some(_), None) => {
                actions.push(Action::Destroy(record.a));
                assert(action_views(actions@) =~= old(self).merged(record@, pa, pb, reading));
            },
            (None, Some(_)) => {
                actions.push(Action::Destroy(record.b));
                assert(action_views(actions@) =~= old(self).merged(record@, pa, pb, reading));
            },
            (None, None) => {
                assert(action_views(actions@) =~= Seq::<ActionView>::empty());
            },
        }
        actions
    }

    /// Drains the queue after a step. The queue is taken and cleared first,
    /// then each record is decided on: against `live`, the bodies that the
    /// registry holds and where they are, and against what the drain has
    /// destroyed by then. An empty queue leads to nothing.
    pub fn step_callback(&mut self, live: &Vec<Placed>) -> (actions: Vec<Action>)
        requires
            old(self).wf(),
        ensures
            final(self).wf(),
            final(self).ebps@.len() == 0,
            exists|readings: Seq<Reading>|
                readings.len() == old(self).ebps@.len() && action_views(actions@) == #[trigger] old(self).drained(
                    record_views(old(self).ebps@),
                    live@,
                    readings,
                ),
            old(self).ebps@.len() == 0 ==> actions@.len() == 0 && final(self).tm == old(self).tm,
            final(self).same_settings(old(self)),
            final(self).cache_grown(old(self)),
            final(self).in_use_after(old(self), action_views(actions@)),
            final(self).rng == old(self).rng,
    {
        let mut snapshot: Vec<CollisionPairRecord> = Vec::new();
        std::mem::swap(&mut snapshot, &mut self.ebps);
        let ghost records = record_views(snapshot@);
        let ghost mut readings: Seq<Reading> = Seq::empty();
        let mut actions: Vec<Action> = Vec::new();
        let mut gone: Vec<BodyId> = Vec::new();
        let mut k: usize = 0;
        proof {
            assert(action_views(actions@) =~= Seq::<ActionView>::empty());
            assert(records.subrange(0, 0) =~= Seq::<RecordView>::empty());
        }
        while k < snapshot.len()
            invariant
                0 <= k <= snapshot@.len(),
                self.wf(),
                old(self).wf(),
                self.ebps@.len() == 0,
                records == record_views(snapshot@),
                readings.len() == k,
                action_views(actions@) == old(self).drained(records.subrange(0, k as int), live@, readings),
                gone@ == destroyed(action_views(actions@)),
                k == 0 ==> actions@.len() == 0 && self.tm == old(self).tm,
                self.same_settings(old(self)),
                self.cache_grown(old(self)),
                self.in_use_after(old(self), action_views(actions@)),
                self.rng == old(self).rng,
            decreases snapshot@.len() - k,
        {
            let record = &snapshot[k];
            let pa = if holds(&gone, record.a) {
                None
            } else {
                find_place(live, record.a)
            };
            let pb = if holds(&gone, record.b) {
                None
            } else {
                find_place(live, record.b)
            };
            let reading = self.reading();
            let ghost before = *self;
            let ghost done = action_views(actions@);
            let mut more = self.merge(record, pa, pb, reading);
            proof {
                // the cache has grown only, so the same record would be decided alike from the start
                assert(before.merged(record@, pa, pb, reading) == old(self).merged(record@, pa, pb, reading)) by {
                    old(self).lemma_merged_alike(&before, record@, pa, pb, reading);
                }
                let upto = records.subrange(0, k + 1);
                assert(upto.drop_last() =~= records.subrange(0, k as int));
                assert(upto.last() == record@);
                let next_readings = readings.push(reading);
                assert(next_readings.drop_last() =~= readings);
                lemma_views_append(actions@, more@);
                lemma_destroyed_append(done, action_views(more@));
                self.lemma_in_use_after(&before, old(self), done, action_views(more@));
                readings = next_readings;
            }
            note_destroyed(&mut gone, &more);
            actions.append(&mut more);
            k = k + 1;
        }
        proof {
            assert(records.subrange(0, snapshot@.len() as int) =~= records);
        }
        actions
    }

    /// An engine whose cache holds the same meshes decides a record alike.
    pub proof fn lemma_merged_alike(&self, other: &SimApp, record: RecordView, pa: Option<Point>, pb: Option<Point>, reading: Reading)
        requires
            other.same_settings(self),
            other.cache_grown(self),
        ensures
            other.merged(record, pa, pb, reading) == self.merged(record, pa, pb, reading),
    {
        let kind = kind_at(self.heir(record.origin) % (KIND_COUNT as int));
        assert(other.tm.mesh(kind, kind.parity_spec()) == self.tm.mesh(kind, kind.parity_spec()));
    }
}


/// How far a key moves the cursor: a tenth of a length unit.
pub const STEP: i64 = 100_000;

/// The request to release the instance of a name; none for the empty name.
pub open spec fn released(key: Seq<char>) -> Seq<ActionView> {
    if key.len() == 0 {
        Seq::empty()
    } else {
        seq![ActionView::Release(key)]
    }
}

/// The request to put the instance of a name at a place; none for the
/// empty name.
pub open spec fn placed(key: Seq<char>, at: Point) -> Seq<ActionView> {
    if key.len() == 0 {
        Seq::empty()
    } else {
        seq![ActionView::Place(key, at)]
    }
}

/// Where the first instance of a show stands.
pub const SHOW_FIRST: i64 = -4_000_000;

/// Where the second instance of a show stands.
pub const SHOW_SECOND: i64 = -2_000_000;

/// How high the instances of a show stand.
pub const SHOW_HEIGHT: i64 = 2_000_000;

/// The line of the icosahedra.
pub const LINE_ICOSAHEDRON: i64 = 0;

/// The line of the dodecahedra.
pub const LINE_DODECAHEDRON: i64 = -4_000_000;

/// The line of the centred dodecahedra.
pub const LINE_DODECAHEDRON_CENTER: i64 = -2_000_000;

/// The line of the truncated icosahedra.
pub const LINE_FULLERENE: i64 = 4_000_000;

/// The line of the centred truncated icosahedra.
pub const LINE_FULLERENE_CENTER: i64 = 2_000_000;

/// Where the instances of a show stand: two length units apart, on the
/// line `y`.
pub open spec fn show_place(which: int, y: i64) -> Point {
    Point { x: if which == 0 { SHOW_FIRST } else { SHOW_SECOND }, y: y, z: SHOW_HEIGHT }
}

/// The ordinal that the cursor drops after `roll` more steps round the family.
pub open spec fn rolled(u: usize, roll: usize) -> int {
    (u + roll) % (KIND_COUNT as int)
}

impl SimApp {
    /// What showing one instance leads to: it is created in the first pose
    /// and tint and released at once. Nothing where its slot holds no mesh.
    pub open spec fn shown(&self, kind: PE, at: Point, nanos: u128) -> Seq<ActionView> {
        match self.spawned(kind, at, 0, 0, nanos) {
            Some(s) => seq![ActionView::Spawn(s), ActionView::Release(s.key)],
            None => Seq::empty(),
        }
    }

    /// What showing a pair of solids leads to.
    pub open spec fn shown_pair(&self, first: PE, second: PE, y: i64, n0: u128, n1: u128) -> Seq<ActionView> {
        self.shown(first, show_place(0, y), n0) + self.shown(second, show_place(1, y), n1)
    }

    /// The name that the cursor holds after it took up the solid of ordinal
    /// `i`: the key of the new instance, the empty name where none was made.
    pub open spec fn taken_up(&self, i: int, reading: Reading) -> Seq<char> {
        match self.dropped(i, self.pos, reading) {
            Some(s) => s.key,
            None => Seq::empty(),
        }
    }

    /// The request to create what the cursor takes up.
    pub open spec fn taking_up(&self, i: int, reading: Reading) -> Seq<ActionView> {
        match self.dropped(i, self.pos, reading) {
            Some(s) => seq![ActionView::Spawn(s)],
            None => Seq::empty(),
        }
    }

    /// Shows one instance: creates it at `at` in the first pose and tint,
    /// and releases it.
    fn show(&mut self, kind: PE, at: Point) -> (r: (Vec<Action>, Ghost<u128>))
        requires
            old(self).wf(),
        ensures
            final(self).wf(),
            action_views(r.0@) == old(self).shown(kind, at, r.1@),
            final(self).same_settings(old(self)),
            final(self).cache_grown(old(self)),
            final(self).in_use_after(old(self), action_views(r.0@)),
            final(self).ebps == old(self).ebps,
            final(self).rng == old(self).rng,
    {
        let reading = self.reading();
        let mut actions: Vec<Action> = Vec::new();
        match self.spawn(kind, at, 0, 0, reading.nanos) {
            Some(s) => {
                let key = s.key.clone();
                let ghost one = as_spawn(Some(s));
                actions.push(Action::Spawn(s));
                actions.push(Action::Release(key));
                assert(action_views(actions@) =~= old(self).shown(kind, at, reading.nanos));
                proof {
                    let both = action_views(actions@);
                    assert forall|family: int, parity: int| #[trigger] claimed(one, family, parity) == claimed(
                        both,
                        family,
                        parity,
                    ) by {
                        lemma_claimed_by(one, 0, family, parity);
                        lemma_claimed_by(both, 0, family, parity);
                    }
                    self.lemma_in_use_alike(old(self), one, both);
                }
            },
            None => {
                assert(action_views(actions@) =~= old(self).shown(kind, at, reading.nanos));
            },
        }
        (actions, Ghost(reading.nanos))
    }

    /// Shows a pair of solids on the line `y`.
    fn show_pair(&mut self, first: PE, second: PE, y: i64) -> (actions: Vec<Action>)
        requires
            old(self).wf(),
        ensures
            final(self).wf(),
            exists|n0: u128, n1: u128| action_views(actions@) == #[trigger] old(self).shown_pair(first, second, y, n0, n1),
            final(self).same_settings(old(self)),
            final(self).cache_grown(old(self)),
            final(self).in_use_after(old(self), action_views(actions@)),
            final(self).ebps == old(self).ebps,
            final(self).rng == old(self).rng,
    {
        let (mut actions, n0) = self.show(first, Point { x: SHOW_FIRST, y, z: SHOW_HEIGHT });
        let ghost between = *self;
        let (mut more, n1) = self.show(second, Point { x: SHOW_SECOND, y, z: SHOW_HEIGHT });
        proof {
            assert(between.tm.mesh(second, second.parity_spec()) == old(self).tm.mesh(second, second.parity_spec()));
            lemma_views_append(actions@, more@);
            self.lemma_in_use_after(&between, old(self), action_views(actions@), action_views(more@));
        }
        actions.append(&mut more);
        proof {
            assert(action_views(actions@) == old(self).shown_pair(first, second, y, n0@, n1@));
        }
        actions
    }

    /// Shows the two icosahedra.
    pub fn create_c60_icosahedron(&mut self) -> (actions: Vec<Action>)
        requires
            old(self).wf(),
        ensures
            final(self).wf(),
            exists|n0: u128, n1: u128|
                action_views(actions@) == #[trigger] old(self).shown_pair(
                    PE::EIcosahedronN0,
                    PE::EIcosahedronN1,
                    LINE_ICOSAHEDRON,
                    n0,
                    n1,
                ),
            final(self).same_settings(old(self)),
            final(self).cache_grown(old(self)),
            final(self).in_use_after(old(self), action_views(actions@)),
            final(self).ebps == old(self).ebps,
            final(self).rng == old(self).rng,
    {
        self.show_pair(PE::EIcosahedronN0, PE::EIcosahedronN1, LINE_ICOSAHEDRON)
    }

    /// Shows the two dodecahedra.
    pub fn create_c60_dodecahedron(&mut self) -> (actions: Vec<Action>)
        requires
            old(self).wf(),
        ensures
            final(self).wf(),
            exists|n0: u128, n1: u128|
                action_views(actions@) == #[trigger] old(self).shown_pair(
                    PE::EDodecahedronN0,
                    PE::EDodecahedronN1,
                    LINE_DODECAHEDRON,
                    n0,
                    n1,
                ),
            final(self).same_settings(old(self)),
            final(self).cache_grown(old(self)),
            final(self).in_use_after(old(self), action_views(actions@)),
            final(self).ebps == old(self).ebps,
            final(self).rng == old(self).rng,
    {
        self.show_pair(PE::EDodecahedronN0, PE::EDodecahedronN1, LINE_DODECAHEDRON)
    }

    /// Shows the two centred dodecahedra.
    pub fn create_c60_dodecahedron_center(&mut self) -> (actions: Vec<Action>)
        requires
            old(self).wf(),
        ensures
            final(self).wf(),
            exists|n0: u128, n1: u128|
                action_views(actions@) == #[trigger] old(self).shown_pair(
                    PE::EDodecahedronCenterN0,
                    PE::EDodecahedronCenterN1,
                    LINE_DODECAHEDRON_CENTER,
                    n0,
                    n1,
                ),
            final(self).same_settings(old(self)),
            final(self).cache_grown(old(self)),
            final(self).in_use_after(old(self), action_views(actions@)),
            final(self).ebps == old(self).ebps,
            final(self).rng == old(self).rng,
    {
        self.show_pair(PE::EDodecahedronCenterN0, PE::EDodecahedronCenterN1, LINE_DODECAHEDRON_CENTER)
    }

    /// Shows the two truncated icosahedra.
    pub fn create_c60_fullerene(&mut self) -> (actions: Vec<Action>)
        requires
            old(self).wf(),
        ensures
            final(self).wf(),
            exists|n0: u128, n1: u128|
                action_views(actions@) == #[trigger] old(self).shown_pair(PE::EC60N0, PE::EC60N1, LINE_FULLERENE, n0, n1),
            final(self).same_settings(old(self)),
            final(self).cache_grown(old(self)),
            final(self).in_use_after(old(self), action_views(actions@)),
            final(self).ebps == old(self).ebps,
            final(self).rng == old(self).rng,
    {
        self.show_pair(PE::EC60N0, PE::EC60N1, LINE_FULLERENE)
    }

    /// Shows the two centred truncated icosahedra.
    pub fn create_c60_fullerene_center(&mut self) -> (actions: Vec<Action>)
        requires
            old(self).wf(),
        ensures
            final(self).wf(),
            exists|n0: u128, n1: u128|
                action_views(actions@) == #[trigger] old(self).shown_pair(
                    PE::EC60CenterN0,
                    PE::EC60CenterN1,
                    LINE_FULLERENE_CENTER,
                    n0,
                    n1,
                ),
            final(self).same_settings(old(self)),
            final(self).cache_grown(old(self)),
            final(self).in_use_after(old(self), action_views(actions@)),
            final(self).ebps == old(self).ebps,
            final(self).rng == old(self).rng,
    {
        self.show_pair(PE::EC60CenterN0, PE::EC60CenterN1, LINE_FULLERENE_CENTER)
    }

    /// Lets the cursor take up the solid of ordinal `i` at the time of
    /// `reading`: an instance is created where the cursor is, not yet
    /// released, and the cursor holds it. Where none can be created the
    /// cursor holds nothing.
    pub fn take_up(&mut self, i: usize, reading: Reading) -> (actions: Vec<Action>)
        requires
            old(self).wf(),
        ensures
            final(self).wf(),
            action_views(actions@) == old(self).taking_up(i as int, reading),
            final(self).current@ == old(self).taken_up(i as int, reading),
            final(self).phase == old(self).phase,
            final(self).pos == old(self).pos,
            final(self).nexpe == old(self).nexpe,
            final(self).evo == old(self).evo,
            final(self).i == old(self).i,
            final(self).j == old(self).j,
            final(self).u == old(self).u,
            final(self).t == old(self).t,
            final(self).cache_grown(old(self)),
            final(self).in_use_after(old(self), action_views(actions@)),
            final(self).ebps == old(self).ebps,
            final(self).rng == old(self).rng,
    {
        let mut actions: Vec<Action> = Vec::new();
        let at = self.pos;
        match self.create_polyhedron_at(i, at, reading) {
            Some(s) => {
                self.current = s.key.clone();
                actions.push(Action::Spawn(s));
                assert(action_views(actions@) =~= old(self).taking_up(i as int, reading));
            },
            None => {
                self.current = String::new();
                assert(action_views(actions@) =~= old(self).taking_up(i as int, reading));
            },
        }
        actions
    }

    /// Opens the scene: sets up the slot of every solid that has a table,
    /// shows the five pairs of the fullerene family, then lets the cursor
    /// take up the solid that it dropped last. Meshes of the other solids
    /// are to be stored before.
    pub fn start_callback(&mut self) -> (actions: Vec<Action>)
        requires
            old(self).wf(),
        ensures
            final(self).wf(),
            final(self).tabled_from(old(self)),
            final(self).in_use_after(old(self), action_views(actions@)),
            exists|n: Seq<u128>, reading: Reading|
                {
                    &&& n.len() == 10
                    &&& action_views(actions@) == #[trigger] final(self).opening(n, reading)
                    &&& final(self).current@ == final(self).taken_up(old(self).nexpe.ordinal(), reading)
                },
            final(self).phase == old(self).phase,
            final(self).pos == old(self).pos,
            final(self).nexpe == old(self).nexpe,
            final(self).evo == old(self).evo,
            final(self).i == old(self).i,
            final(self).j == old(self).j,
            final(self).u == old(self).u,
            final(self).t == old(self).t,
            final(self).ebps == old(self).ebps,
            final(self).rng == old(self).rng,
    {
        self.setup_slots();
        let ghost s0 = *self;
        let actions = self.open_scene();
        proof {
            let (n, reading) = choose|n: Seq<u128>, reading: Reading|
                {
                    &&& n.len() == 10
                    &&& action_views(actions@) == #[trigger] s0.opening(n, reading)
                    &&& self.current@ == s0.taken_up(s0.nexpe.ordinal(), reading)
                };
            self.lemma_opening_alike(&s0, n, reading);
            assert(self.taken_up(s0.nexpe.ordinal(), reading) == s0.taken_up(s0.nexpe.ordinal(), reading)) by {
                let kind = kind_at(s0.nexpe.ordinal() % (KIND_COUNT as int));
                assert(self.tm.mesh(kind, kind.parity_spec()) == s0.tm.mesh(kind, kind.parity_spec()));
            }
            assert(action_views(actions@) == self.opening(n, reading));
            assert forall|u: int| 0 <= u < KIND_COUNT implies #[trigger] self.slot_tabled(old(self), kind_at(u)) by {
                let kind = kind_at(u);
                assert(s0.slot_tabled(old(self), kind));
                assert(self.tm.mesh(kind, kind.parity_spec()) == s0.tm.mesh(kind, kind.parity_spec()));
            }
            assert forall|k: PE, p: int| !SimApp::tabled_slot(k, p) implies #[trigger] self.tm.mesh(k, p) == old(
                self,
            ).tm.mesh(k, p) by {
                assert(self.tm.mesh(k, p) == s0.tm.mesh(k, p));
            }
            assert forall|k: PE, p: int| !SimApp::tabled_slot(k, p) implies #[trigger] self.tm.star_shaped(k, p)
                == old(self).tm.star_shaped(k, p) by {
                assert(self.tm.star_shaped(k, p) == s0.tm.star_shaped(k, p));
            }
            assert forall|k: PE, p: int|
                #[trigger] self.tm.in_use(k, p) == (old(self).tm.in_use(k, p) || (is_slot(k, p) && claimed(
                    action_views(actions@),
                    k.family_spec(),
                    p,
                ))) by {
                assert(s0.tm.in_use(k, p) == old(self).tm.in_use(k, p));
            }
        }
        actions
    }

    /// Shows the five pairs of the fullerene family, then lets the cursor
    /// take up the solid that it dropped last.
    fn open_scene(&mut self) -> (actions: Vec<Action>)
        requires
            old(self).wf(),
        ensures
            final(self).wf(),
            exists|n: Seq<u128>, reading: Reading|
                {
                    &&& n.len() == 10
                    &&& action_views(actions@) == #[trigger] old(self).opening(n, reading)
                    &&& final(self).current@ == old(self).taken_up(old(self).nexpe.ordinal(), reading)
                },
            final(self).phase == old(self).phase,
            final(self).pos == old(self).pos,
            final(self).nexpe == old(self).nexpe,
            final(self).evo == old(self).evo,
            final(self).i == old(self).i,
            final(self).j == old(self).j,
            final(self).u == old(self).u,
            final(self).t == old(self).t,
            final(self).cache_grown(old(self)),
            final(self).in_use_after(old(self), action_views(actions@)),
            final(self).ebps == old(self).ebps,
            final(self).rng == old(self).rng,
    {
        let ghost s0 = *self;
        let mut actions = self.create_c60_icosahedron();
        let ghost (n0, n1) = choose|n0: u128, n1: u128|
            action_views(actions@) == #[trigger] s0.shown_pair(PE::EIcosahedronN0, PE::EIcosahedronN1, LINE_ICOSAHEDRON, n0, n1);
        let ghost s1 = *self;
        let mut a2 = self.create_c60_dodecahedron();
        let ghost (n2, n3) = choose|n2: u128, n3: u128|
            action_views(a2@) == #[trigger] s1.shown_pair(PE::EDodecahedronN0, PE::EDodecahedronN1, LINE_DODECAHEDRON, n2, n3);
        let ghost s2 = *self;
        let mut a3 = self.create_c60_dodecahedron_center();
        let ghost (n4, n5) = choose|n4: u128, n5: u128|
            action_views(a3@) == #[trigger] s2.shown_pair(
                PE::EDodecahedronCenterN0,
                PE::EDodecahedronCenterN1,
                LINE_DODECAHEDRON_CENTER,
                n4,
                n5,
            );
        let ghost s3 = *self;
        let mut a4 = self.create_c60_fullerene();
        let ghost (n6, n7) = choose|n6: u128, n7: u128|
            action_views(a4@) == #[trigger] s3.shown_pair(PE::EC60N0, PE::EC60N1, LINE_FULLERENE, n6, n7);
        let ghost s4 = *self;
        let mut a5 = self.create_c60_fullerene_center();
        let ghost (n8, n9) = choose|n8: u128, n9: u128|
            action_views(a5@) == #[trigger] s4.shown_pair(PE::EC60CenterN0, PE::EC60CenterN1, LINE_FULLERENE_CENTER, n8, n9);
        let ghost s5 = *self;
        let reading = self.reading();
        let mut a6 = self.take_up(self.nexpe.index(), reading);
        proof {
            let n = seq![n0, n1, n2, n3, n4, n5, n6, n7, n8, n9];
            s0.lemma_shown_alike(&s1, PE::EDodecahedronN0, PE::EDodecahedronN1, LINE_DODECAHEDRON, n2, n3);
            s0.lemma_shown_alike(&s2, PE::EDodecahedronCenterN0, PE::EDodecahedronCenterN1, LINE_DODECAHEDRON_CENTER, n4, n5);
            s0.lemma_shown_alike(&s3, PE::EC60N0, PE::EC60N1, LINE_FULLERENE, n6, n7);
            s0.lemma_shown_alike(&s4, PE::EC60CenterN0, PE::EC60CenterN1, LINE_FULLERENE_CENTER, n8, n9);
            let kind = kind_at(s0.nexpe.ordinal() % (KIND_COUNT as int));
            assert(s5.tm.mesh(kind, kind.parity_spec()) == s0.tm.mesh(kind, kind.parity_spec()));
            assert(s5.dropped(s0.nexpe.ordinal(), s5.pos, reading) == s0.dropped(s0.nexpe.ordinal(), s0.pos, reading));
            lemma_views_append(actions@, a2@);
            lemma_views_append(actions@ + a2@, a3@);
            lemma_views_append(actions@ + a2@ + a3@, a4@);
            lemma_views_append(actions@ + a2@ + a3@ + a4@, a5@);
            lemma_views_append(actions@ + a2@ + a3@ + a4@ + a5@, a6@);
            s2.lemma_in_use_after(&s1, &s0, action_views(actions@), action_views(a2@));
            s3.lemma_in_use_after(&s2, &s0, action_views(actions@ + a2@), action_views(a3@));
            s4.lemma_in_use_after(&s3, &s0, action_views(actions@ + a2@ + a3@), action_views(a4@));
            s5.lemma_in_use_after(&s4, &s0, action_views(actions@ + a2@ + a3@ + a4@), action_views(a5@));
            self.lemma_in_use_after(
                &s5,
                &s0,
                action_views(actions@ + a2@ + a3@ + a4@ + a5@),
                action_views(a6@),
            );
            assert(action_views(actions@ + a2@ + a3@ + a4@ + a5@ + a6@) == s0.opening(n, reading));
        }
        actions.append(&mut a2);
        actions.append(&mut a3);
        actions.append(&mut a4);
        actions.append(&mut a5);
        actions.append(&mut a6);
        actions
    }

    /// An engine whose cache holds the same meshes opens the scene alike.
    pub proof fn lemma_opening_alike(&self, other: &SimApp, n: Seq<u128>, reading: Reading)
        requires
            self.cache_grown(other),
            self.pos == other.pos,
            self.nexpe == other.nexpe,
        ensures
            self.opening(n, reading) == other.opening(n, reading),
    {
        other.lemma_shown_alike(self, PE::EIcosahedronN0, PE::EIcosahedronN1, LINE_ICOSAHEDRON, n[0], n[1]);
        other.lemma_shown_alike(self, PE::EDodecahedronN0, PE::EDodecahedronN1, LINE_DODECAHEDRON, n[2], n[3]);
        other.lemma_shown_alike(
            self,
            PE::EDodecahedronCenterN0,
            PE::EDodecahedronCenterN1,
            LINE_DODECAHEDRON_CENTER,
            n[4],
            n[5],
        );
        other.lemma_shown_alike(self, PE::EC60N0, PE::EC60N1, LINE_FULLERENE, n[6], n[7]);
        other.lemma_shown_alike(self, PE::EC60CenterN0, PE::EC60CenterN1, LINE_FULLERENE_CENTER, n[8], n[9]);
        let kind = kind_at(self.nexpe.ordinal() % (KIND_COUNT as int));
        assert(self.tm.mesh(kind, kind.parity_spec()) == other.tm.mesh(kind, kind.parity_spec()));
    }


    /// What opening the scene leads to.
    pub open spec fn opening(&self, n: Seq<u128>, reading: Reading) -> Seq<ActionView> {
        self.shown_pair(PE::EIcosahedronN0, PE::EIcosahedronN1, LINE_ICOSAHEDRON, n[0], n[1]) + self.shown_pair(
            PE::EDodecahedronN0,
            PE::EDodecahedronN1,
            LINE_DODECAHEDRON,
            n[2],
            n[3],
        ) + self.shown_pair(PE::EDodecahedronCenterN0, PE::EDodecahedronCenterN1, LINE_DODECAHEDRON_CENTER, n[4], n[5])
            + self.shown_pair(PE::EC60N0, PE::EC60N1, LINE_FULLERENE, n[6], n[7]) + self.shown_pair(
            PE::EC60CenterN0,
            PE::EC60CenterN1,
            LINE_FULLERENE_CENTER,
            n[8],
            n[9],
        ) + self.taking_up(self.nexpe.ordinal(), reading)
    }

    /// An engine whose cache holds the same meshes shows a pair alike.
    pub proof fn lemma_shown_alike(&self, other: &SimApp, first: PE, second: PE, y: i64, n0: u128, n1: u128)
        requires
            other.cache_grown(self),
        ensures
            other.shown_pair(first, second, y, n0, n1) == self.shown_pair(first, second, y, n0, n1),
    {
        assert(other.tm.mesh(first, first.parity_spec()) == self.tm.mesh(first, first.parity_spec()));
        assert(other.tm.mesh(second, second.parity_spec()) == self.tm.mesh(second, second.parity_spec()));
    }
}


impl SimApp {
    /// All but the cursor, the queue, the cache and chance is as in `old`.
    pub open spec fn same_but_cursor(&self, old: &SimApp) -> bool {
        &&& self.phase == old.phase
        &&& self.evo == old.evo
        &&& self.i == old.i
        &&& self.j == old.j
        &&& self.t == old.t
        &&& self.ebps == old.ebps
    }

    /// The engine is as `old` but for the place of the cursor, which is `at`.
    pub open spec fn moved_from(&self, old: &SimApp, at: Point) -> bool {
        &&& self.same_but_cursor(old)
        &&& self.pos == at
        &&& self.current@ == old.current@
        &&& self.nexpe == old.nexpe
        &&& self.u == old.u
        &&& self.tm == old.tm
        &&& self.rng == old.rng
    }

    /// What the key `cmd` has led to: `self` is the engine after the key,
    /// `old` the engine before it, `actions` what the frame loop is asked.
    pub open spec fn obeyed(&self, old: &SimApp, cmd: i32, actions: Seq<ActionView>) -> bool {
        match decoded(cmd) {
            Command::Drop(prop) => actions == seq![ActionView::Drop(prop)] && self.moved_from(old, old.pos),
            Command::Icosahedra => {
                &&& self.same_settings(old) && self.ebps == old.ebps && self.rng == old.rng && self.cache_grown(old)
                &&& self.in_use_after(old, actions)
                &&& exists|n0: u128, n1: u128|
                    actions == #[trigger] old.shown_pair(PE::EIcosahedronN0, PE::EIcosahedronN1, LINE_ICOSAHEDRON, n0, n1)
            },
            Command::Dodecahedra => {
                &&& self.same_settings(old) && self.ebps == old.ebps && self.rng == old.rng && self.cache_grown(old)
                &&& self.in_use_after(old, actions)
                &&& exists|n0: u128, n1: u128, n2: u128, n3: u128|
                    actions == #[trigger] old.shown_pair(
                        PE::EDodecahedronN0,
                        PE::EDodecahedronN1,
                        LINE_DODECAHEDRON,
                        n0,
                        n1,
                    ) + #[trigger] old.shown_pair(
                        PE::EDodecahedronCenterN0,
                        PE::EDodecahedronCenterN1,
                        LINE_DODECAHEDRON_CENTER,
                        n2,
                        n3,
                    )
            },
            Command::Fullerenes => {
                &&& self.same_settings(old) && self.ebps == old.ebps && self.rng == old.rng && self.cache_grown(old)
                &&& self.in_use_after(old, actions)
                &&& exists|n0: u128, n1: u128, n2: u128, n3: u128|
                    actions == #[trigger] old.shown_pair(PE::EC60N0, PE::EC60N1, LINE_FULLERENE, n0, n1)
                        + #[trigger] old.shown_pair(PE::EC60CenterN0, PE::EC60CenterN1, LINE_FULLERENE_CENTER, n2, n3)
            },
            Command::Next => {
                &&& self.same_but_cursor(old) && self.pos == old.pos && self.cache_grown(old)
                &&& self.in_use_after(old, actions)
                &&& exists|roll: usize, reading: Reading|
                    {
                        &&& self.u == #[trigger] rolled(old.u, roll)
                        &&& self.nexpe == kind_at(self.u as int)
                        &&& self.current@ == #[trigger] old.taken_up(self.u as int, reading)
                        &&& actions == released(old.current@) + old.taking_up(self.u as int, reading)
                    }
            },
            Command::Left => {
                let at = Point { x: old.pos.x, y: nudged(old.pos.y, (-STEP) as i64) as i64, z: old.pos.z };
                actions == placed(old.current@, at) && self.moved_from(old, at)
            },
            Command::Front => {
                let at = Point { x: nudged(old.pos.x, STEP) as i64, y: old.pos.y, z: old.pos.z };
                actions == placed(old.current@, at) && self.moved_from(old, at)
            },
            Command::Back => {
                let at = Point { x: nudged(old.pos.x, (-STEP) as i64) as i64, y: old.pos.y, z: old.pos.z };
                actions == placed(old.current@, at) && self.moved_from(old, at)
            },
            Command::Right => {
                let at = Point { x: old.pos.x, y: nudged(old.pos.y, STEP) as i64, z: old.pos.z };
                actions == placed(old.current@, at) && self.moved_from(old, at)
            },
            Command::Info => {
                &&& actions == Seq::<ActionView>::empty()
                &&& self.i == !old.i
                &&& self.j == old.j
                &&& self.phase == old.phase && self.evo == old.evo && self.t == old.t && self.ebps == old.ebps
                &&& self.pos == old.pos && self.current@ == old.current@ && self.nexpe == old.nexpe && self.u == old.u
                &&& self.tm == old.tm && self.rng == old.rng
            },
            Command::InfoSub => {
                &&& actions == Seq::<ActionView>::empty()
                &&& self.i == old.i
                &&& self.j == !old.j
                &&& self.phase == old.phase && self.evo == old.evo && self.t == old.t && self.ebps == old.ebps
                &&& self.pos == old.pos && self.current@ == old.current@ && self.nexpe == old.nexpe && self.u == old.u
                &&& self.tm == old.tm && self.rng == old.rng
            },
            Command::Apple => actions == seq![ActionView::ToggleApple] && self.moved_from(old, old.pos),
            Command::Push => actions == seq![ActionView::Push] && self.moved_from(old, old.pos),
            Command::BigBall => actions == seq![ActionView::ShowBigBall] && self.moved_from(old, old.pos),
            Command::Recolor => actions == seq![ActionView::Recolor] && self.moved_from(old, old.pos),
            Command::ListAll => actions == seq![ActionView::ListAll] && self.moved_from(old, old.pos),
            Command::Help => actions == seq![ActionView::Help] && self.moved_from(old, old.pos),
            Command::Nothing => actions == Seq::<ActionView>::empty() && self.moved_from(old, old.pos),
        }
    }

    /// Puts the cursor at `at` and asks to put there what it holds.
    fn move_to(&mut self, at: Point) -> (actions: Vec<Action>)
        ensures
            action_views(actions@) == placed(old(self).current@, at),
            final(self).moved_from(old(self), at),
    {
        let mut actions: Vec<Action> = Vec::new();
        self.pos = at;
        if !self.current.as_str().is_empty() {
            actions.push(Action::Place(self.current.clone(), at));
        }
        assert(action_views(actions@) =~= placed(old(self).current@, at));
        actions
    }

    /// One request and nothing else.
    fn only(action: Action) -> (actions: Vec<Action>)
        ensures
            action_views(actions@) == seq![action@],
    {
        let mut actions: Vec<Action> = Vec::new();
        actions.push(action);
        assert(action_views(actions@) =~= seq![action@]);
        actions
    }

    /// Releases what the cursor holds, moves on by as many solids as chance
    /// gives, and takes up an instance of the solid reached.
    fn next(&mut self) -> (actions: Vec<Action>)
        requires
            old(self).wf(),
        ensures
            final(self).wf(),
            final(self).same_but_cursor(old(self)),
            final(self).pos == old(self).pos,
            final(self).cache_grown(old(self)),
            final(self).in_use_after(old(self), action_views(actions@)),
            exists|roll: usize, reading: Reading|
                {
                    &&& final(self).u == #[trigger] rolled(old(self).u, roll)
                    &&& final(self).nexpe == kind_at(final(self).u as int)
                    &&& final(self).current@ == #[trigger] old(self).taken_up(final(self).u as int, reading)
                    &&& action_views(actions@) == released(old(self).current@) + old(self).taking_up(
                        final(self).u as int,
                        reading,
                    )
                },
    {
        let mut actions: Vec<Action> = Vec::new();
        if !self.current.as_str().is_empty() {
            actions.push(Action::Release(self.current.clone()));
        }
        assert(action_views(actions@) =~= released(old(self).current@));
        let roll = outside::next_usize(&mut self.rng);
        self.u = ((self.u % KIND_COUNT) + (roll % KIND_COUNT)) % KIND_COUNT;
        assert(self.u == rolled(old(self).u, roll));
        self.nexpe = match PE::from_usize(self.u) {
            Some(kind) => kind,
            None => PE::End,
        };
        let reading = self.reading();
        let ghost before = *self;
        proof {
            assert forall|k: PE, p: int|
                #[trigger] before.tm.in_use(k, p) == (old(self).tm.in_use(k, p) || (is_slot(k, p) && claimed(
                    action_views(actions@),
                    k.family_spec(),
                    p,
                ))) by {
                lemma_claimed_by_none(action_views(actions@), k.family_spec(), p);
            }
        }
        let ghost first = action_views(actions@);
        let mut more = self.take_up(self.u, reading);
        proof {
            self.lemma_in_use_after(&before, old(self), first, action_views(more@));
            let kind = kind_at(before.u as int % (KIND_COUNT as int));
            assert(before.tm.mesh(kind, kind.parity_spec()) == old(self).tm.mesh(kind, kind.parity_spec()));
            assert(before.dropped(before.u as int, before.pos, reading) == old(self).dropped(
                before.u as int,
                old(self).pos,
                reading,
            ));
            lemma_views_append(actions@, more@);
            assert(before.taken_up(before.u as int, reading) == old(self).taken_up(before.u as int, reading));
            assert(before.taking_up(before.u as int, reading) == old(self).taking_up(before.u as int, reading));
        }
        actions.append(&mut more);
        proof {
            assert(self.u == rolled(old(self).u, roll));
            assert(self.current@ == old(self).taken_up(self.u as int, reading));
            assert(action_views(actions@) == released(old(self).current@) + old(self).taking_up(
                self.u as int,
                reading,
            ));
        }
        actions
    }

    /// Takes a key of the frame loop and says what it leads to.
    pub fn command_callback(&mut self, cmd: i32) -> (actions: Vec<Action>)
        requires
            old(self).wf(),
        ensures
            final(self).wf(),
            final(self).obeyed(old(self), cmd, action_views(actions@)),
    {
        match decode(cmd) {
            Command::Drop(prop) => SimApp::only(Action::Drop(prop)),
            Command::Icosahedra => self.create_c60_icosahedron(),
            Command::Dodecahedra => {
                let mut actions = self.create_c60_dodecahedron();
                let ghost (n0, n1) = choose|n0: u128, n1: u128|
                    action_views(actions@) == #[trigger] old(self).shown_pair(
                        PE::EDodecahedronN0,
                        PE::EDodecahedronN1,
                        LINE_DODECAHEDRON,
                        n0,
                        n1,
                    );
                let ghost between = *self;
                let mut more = self.create_c60_dodecahedron_center();
                proof {
                    let (n2, n3) = choose|n2: u128, n3: u128|
                        action_views(more@) == #[trigger] between.shown_pair(
                            PE::EDodecahedronCenterN0,
                            PE::EDodecahedronCenterN1,
                            LINE_DODECAHEDRON_CENTER,
                            n2,
                            n3,
                        );
                    old(self).lemma_shown_alike(
                        &between,
                        PE::EDodecahedronCenterN0,
                        PE::EDodecahedronCenterN1,
                        LINE_DODECAHEDRON_CENTER,
                        n2,
                        n3,
                    );
                    lemma_views_append(actions@, more@);
                    self.lemma_in_use_after(&between, old(self), action_views(actions@), action_views(more@));
                    assert(action_views(actions@ + more@) == old(self).shown_pair(
                        PE::EDodecahedronN0,
                        PE::EDodecahedronN1,
                        LINE_DODECAHEDRON,
                        n0,
                        n1,
                    ) + old(self).shown_pair(
                        PE::EDodecahedronCenterN0,
                        PE::EDodecahedronCenterN1,
                        LINE_DODECAHEDRON_CENTER,
                        n2,
                        n3,
                    ));
                }
                actions.append(&mut more);
                actions
            },
            Command::Fullerenes => {
                let mut actions = self.create_c60_fullerene();
                let ghost (n0, n1) = choose|n0: u128, n1: u128|
                    action_views(actions@) == #[trigger] old(self).shown_pair(
                        PE::EC60N0,
                        PE::EC60N1,
                        LINE_FULLERENE,
                        n0,
                        n1,
                    );
                let ghost between = *self;
                let mut more = self.create_c60_fullerene_center();
                proof {
                    let (n2, n3) = choose|n2: u128, n3: u128|
                        action_views(more@) == #[trigger] between.shown_pair(
                            PE::EC60CenterN0,
                            PE::EC60CenterN1,
                            LINE_FULLERENE_CENTER,
                            n2,
                            n3,
                        );
                    old(self).lemma_shown_alike(
                        &between,
                        PE::EC60CenterN0,
                        PE::EC60CenterN1,
                        LINE_FULLERENE_CENTER,
                        n2,
                        n3,
                    );
                    lemma_views_append(actions@, more@);
                    self.lemma_in_use_after(&between, old(self), action_views(actions@), action_views(more@));
                    assert(action_views(actions@ + more@) == old(self).shown_pair(
                        PE::EC60N0,
                        PE::EC60N1,
                        LINE_FULLERENE,
                        n0,
                        n1,
                    ) + old(self).shown_pair(PE::EC60CenterN0, PE::EC60CenterN1, LINE_FULLERENE_CENTER, n2, n3));
                }
                actions.append(&mut more);
                actions
            },
            Command::Next => self.next(),
            Command::Left => {
                let at = Point { x: self.pos.x, y: nudge(self.pos.y, -STEP), z: self.pos.z };
                self.move_to(at)
            },
            Command::Front => {
                let at = Point { x: nudge(self.pos.x, STEP), y: self.pos.y, z: self.pos.z };
                self.move_to(at)
            },
            Command::Back => {
                let at = Point { x: nudge(self.pos.x, -STEP), y: self.pos.y, z: self.pos.z };
                self.move_to(at)
            },
            Command::Right => {
                let at = Point { x: self.pos.x, y: nudge(self.pos.y, STEP), z: self.pos.z };
                self.move_to(at)
            },
            Command::Info => {
                self.i = !self.i;
                let actions: Vec<Action> = Vec::new();
                assert(action_views(actions@) =~= Seq::<ActionView>::empty());
                actions
            },
            Command::InfoSub => {
                self.j = !self.j;
                let actions: Vec<Action> = Vec::new();
                assert(action_views(actions@) =~= Seq::<ActionView>::empty());
                actions
            },
            Command::Apple => SimApp::only(Action::ToggleApple),
            Command::Push => SimApp::only(Action::Push),
            Command::BigBall => SimApp::only(Action::ShowBigBall),
            Command::Recolor => SimApp::only(Action::Recolor),
            Command::ListAll => SimApp::only(Action::ListAll),
            Command::Help => SimApp::only(Action::Help),
            Command::Nothing => {
                let actions: Vec<Action> = Vec::new();
                assert(action_views(actions@) =~= Seq::<ActionView>::empty());
                actions
            },
        }
    }
}


/// What one record leads to destroys bodies that were seen only, and none
/// of them twice.
proof fn lemma_merged_destroys(sim: SimApp, record: RecordView, pa: Option<Point>, pb: Option<Point>, reading: Reading)
    ensures
        destroyed(sim.merged(record, pa, pb, reading)).no_duplicates(),
        forall|id: BodyId|
            destroyed(sim.merged(record, pa, pb, reading)).contains(id) ==> (id == record.a && pa is Some) || (id
                == record.b && pb is Some),
        crate::action::spawn_count(sim.merged(record, pa, pb, reading)) <= 1,
{
    reveal_with_fuel(destroyed, 5);
    reveal_with_fuel(crate::action::spawn_count, 5);
    let acts = sim.merged(record, pa, pb, reading);
    if acts.len() == 4 {
        let s = sim.dropped(sim.heir(record.origin), midpoint_spec(pa->0, pb->0), reading)->0;
        assert(acts.drop_last() =~= seq![
            ActionView::Destroy(record.b),
            ActionView::Destroy(record.a),
            ActionView::Spawn(s),
        ]);
        assert(acts.drop_last().drop_last() =~= seq![ActionView::Destroy(record.b), ActionView::Destroy(record.a)]);
        assert(acts.drop_last().drop_last().drop_last() =~= seq![ActionView::Destroy(record.b)]);
        assert(acts.drop_last().drop_last().drop_last().drop_last() =~= Seq::<ActionView>::empty());
        assert(destroyed(acts) =~= seq![record.b, record.a]);
    } else if acts.len() == 1 {
        assert(acts.drop_last() =~= Seq::<ActionView>::empty());
        assert(destroyed(acts) =~= seq![if pa is Some { record.a } else { record.b }]);
    } else {
        assert(acts =~= Seq::<ActionView>::empty());
    }
}

/// Instances that two lists in a row create are those of the first and
/// those of the second.
pub proof fn lemma_spawn_count_append(a: Seq<ActionView>, b: Seq<ActionView>)
    ensures
        crate::action::spawn_count(a + b) == crate::action::spawn_count(a) + crate::action::spawn_count(b),
    decreases b.len(),
{
    if b.len() == 0 {
        assert(a + b =~= a);
    } else {
        assert((a + b).drop_last() =~= a + b.drop_last());
        assert((a + b).last() == b.last());
        lemma_spawn_count_append(a, b.drop_last());
    }
}

/// A drain destroys no body twice, destroys only bodies that the snapshot
/// holds, and creates one instance for each record at most.
pub proof fn lemma_drain_is_orderly(sim: SimApp, records: Seq<RecordView>, live: Seq<Placed>, readings: Seq<Reading>)
    ensures
        destroyed(sim.drained(records, live, readings)).no_duplicates(),
        forall|id: BodyId| destroyed(sim.drained(records, live, readings)).contains(id) ==> place_of(live, id) is Some,
        crate::action::spawn_count(sim.drained(records, live, readings)) <= records.len(),
    decreases records.len(),
{
    if records.len() > 0 {
        let done = sim.drained(records.drop_last(), live, readings.drop_last());
        let record = records.last();
        let pa = seen(done, live, record.a);
        let pb = seen(done, live, record.b);
        let more = sim.merged(record, pa, pb, readings.last());
        lemma_drain_is_orderly(sim, records.drop_last(), live, readings.drop_last());
        lemma_merged_destroys(sim, record, pa, pb, readings.last());
        lemma_destroyed_append(done, more);
        lemma_spawn_count_append(done, more);
        let d1 = destroyed(done);
        let d2 = destroyed(more);
        assert forall|i: int, j: int| 0 <= i < j < (d1 + d2).len() implies (d1 + d2)[i] != (d1 + d2)[j] by {
            if j >= d1.len() {
                assert(d2.contains(d2[j - d1.len()]));
                if i < d1.len() {
                    assert(d1.contains(d1[i]));
                }
            }
        }
        assert forall|id: BodyId| (d1 + d2).contains(id) implies place_of(live, id) is Some by {
            let k = choose|k: int| 0 <= k < (d1 + d2).len() && (d1 + d2)[k] == id;
            if k < d1.len() {
                assert(d1.contains(id));
            } else {
                assert(d2[k - d1.len()] == id);
                assert(d2.contains(id));
            }
        }
    }
}

/// Draining an empty queue asks for nothing.
pub proof fn lemma_empty_drain(sim: SimApp, live: Seq<Placed>, readings: Seq<Reading>)
    ensures
        sim.drained(Seq::empty(), live, readings) == Seq::<ActionView>::empty(),
{
}


/// An instance that the engine creates carries the name of its solid as
/// its origin, under a key that the tracker looks at: what evolved can
/// evolve again.
pub proof fn lemma_spawn_carries_origin(sim: SimApp, kind: PE, at: Point, pose: int, tint: int, nanos: u128)
    requires
        sim.spawned(kind, at, pose, tint, nanos) is Some,
    ensures
        origin_of(sim.spawned(kind, at, pose, tint, nanos)->0.key) == Some(kind.name_spec()),
        !crate::tracker::ignored(sim.spawned(kind, at, pose, tint, nanos)->0.key),
        sim.spawned(kind, at, pose, tint, nanos)->0.at == at,
        sim.spawned(kind, at, pose, tint, nanos)->0.kind == kind,
{
    crate::kind::lemma_name_is_origin(kind);
    crate::key::lemma_key_round_trip(kind.name_spec(), nanos as nat);
    crate::tracker::lemma_instances_are_not_ignored(kind, nanos as nat);
}

/// Two bodies of one record that are both there, and whose successor has a
/// mesh, are both destroyed, and one instance of the successor is created
/// half way between them and released. The successor is the solid that the
/// graph gives the origin of the record.
pub proof fn lemma_merge_of_two(sim: SimApp, record: RecordView, p: Point, q: Point, reading: Reading)
    requires
        record.a != record.b,
        sim.evo@.contains_key(record.origin),
        sim.evo@[record.origin].is_solid(),
        sim.tm.mesh(sim.evo@[record.origin], sim.evo@[record.origin].parity_spec()) is Some,
    ensures
        ({
            let acts = sim.merged(record, Some(p), Some(q), reading);
            &&& acts.len() == 4
            &&& acts[0] == ActionView::Destroy(record.b)
            &&& acts[1] == ActionView::Destroy(record.a)
            &&& acts[2] is Spawn
            &&& acts[2]->Spawn_0.kind == sim.evo@[record.origin]
            &&& acts[2]->Spawn_0.at == midpoint_spec(p, q)
            &&& origin_of(acts[2]->Spawn_0.key) == Some(sim.evo@[record.origin].name_spec())
            &&& acts[3] == ActionView::Release(acts[2]->Spawn_0.key)
        }),
{
    let kind = sim.evo@[record.origin];
    crate::kind::lemma_kind_at(kind);
    lemma_spawn_carries_origin(
        sim,
        kind,
        midpoint_spec(p, q),
        kind.pose_spec(),
        (reading.secs % (TINT_COUNT as u64)) as int,
        reading.nanos,
    );
}


/// The scale, in hundredths, at which the mesh of a solid is set up: the
/// tetrahedron and the octahedron at their base size, the others at a fifth.
pub open spec fn base_scale_spec(kind: PE) -> u32 {
    match kind {
        PE::ETetra | PE::EOcta => 100,
        _ => 20,
    }
}

/// The scale, in hundredths, at which the mesh of a solid is set up.
pub fn base_scale(kind: PE) -> (r: u32)
    ensures
        r == base_scale_spec(kind),
        1 <= r <= MAX_SCALE,
{
    match kind {
        PE::ETetra | PE::EOcta => 100,
        _ => 20,
    }
}

impl SimApp {
    /// What setting up the tables has done to the slot of `kind`: a slot
    /// that was in use, or is of a solid without a table, holds what it
    /// held; else it holds the table of the solid at its base scale, which
    /// is valid.
    pub open spec fn slot_tabled(&self, old: &SimApp, kind: PE) -> bool {
        let p = kind.parity_spec();
        if has_table(kind) && !old.tm.in_use(kind, p) {
            let mesh = self.tm.mesh(kind, p);
            &&& mesh is Some
            &&& generated(kind, base_scale_spec(kind), &mesh->0)
            &&& mesh->0.valid()
        } else {
            self.tm.mesh(kind, p) == old.tm.mesh(kind, p)
        }
    }

    /// Whether the slot is one that a solid with a table is created from.
    pub open spec fn tabled_slot(kind: PE, parity: int) -> bool {
        has_table(kind) && (parity == 0 || (parity == 1 && kind.family_spec() >= PE::EIcosahedronN0.family_spec()))
    }

    /// Every slot is as setting up the tables leaves it: the slot of each
    /// solid with a table holds the table, unless it was in use, and no
    /// other slot is touched.
    pub open spec fn tabled_from(&self, old: &SimApp) -> bool {
        &&& forall|u: int| 0 <= u < KIND_COUNT ==> #[trigger] self.slot_tabled(old, kind_at(u))
        &&& forall|k: PE, p: int| !SimApp::tabled_slot(k, p) ==> #[trigger] self.tm.mesh(k, p) == old.tm.mesh(k, p)
        &&& forall|k: PE, p: int|
            !SimApp::tabled_slot(k, p) ==> #[trigger] self.tm.star_shaped(k, p) == old.tm.star_shaped(k, p)
    }

    /// Sets up the slot of every solid that has a table, at the base scale
    /// of the solid. Slots in use and slots of other solids stay as they are.
    pub fn setup_slots(&mut self)
        requires
            old(self).wf(),
        ensures
            final(self).wf(),
            final(self).tabled_from(old(self)),
            forall|k: PE, p: int| #[trigger] final(self).tm.in_use(k, p) == old(self).tm.in_use(k, p),
            final(self).same_settings(old(self)),
            final(self).ebps == old(self).ebps,
            final(self).rng == old(self).rng,
    {
        let mut u: usize = 0;
        while u < KIND_COUNT
            invariant
                0 <= u <= KIND_COUNT,
                self.wf(),
                self.same_settings(old(self)),
                self.ebps == old(self).ebps,
                self.rng == old(self).rng,
                forall|v: int| 0 <= v < u ==> #[trigger] self.slot_tabled(old(self), kind_at(v)),
                forall|v: int|
                    u <= v < KIND_COUNT ==> #[trigger] self.tm.same_slot(
                        &old(self).tm,
                        kind_at(v),
                        kind_at(v).parity_spec(),
                    ),
                forall|k: PE, p: int| #[trigger] self.tm.in_use(k, p) == old(self).tm.in_use(k, p),
                forall|k: PE, p: int| !SimApp::tabled_slot(k, p) ==> #[trigger] self.tm.same_slot(&old(self).tm, k, p),
            decreases KIND_COUNT - u,
        {
            let ghost before = *self;
            match PE::from_usize(u) {
                Some(kind) => {
                    if is_tabled(kind) {
                        let _ = self.tm.setup(kind, kind.parity(), base_scale(kind));
                    }
                    proof {
                        assert forall|v: int| 0 <= v < KIND_COUNT && v != u implies #[trigger] self.tm.same_slot(
                            &before.tm,
                            kind_at(v),
                            kind_at(v).parity_spec(),
                        ) by {
                            let other = kind_at(v);
                            assert(crate::cache::slot_index(other, other.parity_spec()) != crate::cache::slot_index(
                                kind,
                                kind.parity_spec(),
                            ));
                        }
                        assert forall|v: int| 0 <= v < u implies #[trigger] self.slot_tabled(old(self), kind_at(v)) by {
                            assert(before.slot_tabled(old(self), kind_at(v)));
                            assert(self.tm.same_slot(&before.tm, kind_at(v), kind_at(v).parity_spec()));
                        }
                        assert forall|v: int| u < v < KIND_COUNT implies #[trigger] self.tm.same_slot(
                            &old(self).tm,
                            kind_at(v),
                            kind_at(v).parity_spec(),
                        ) by {
                            assert(before.tm.same_slot(&old(self).tm, kind_at(v), kind_at(v).parity_spec()));
                            assert(self.tm.same_slot(&before.tm, kind_at(v), kind_at(v).parity_spec()));
                        }
                        assert(before.tm.same_slot(&old(self).tm, kind_at(u as int), kind_at(u as int).parity_spec()));
                        assert forall|k: PE, p: int| !SimApp::tabled_slot(k, p) implies #[trigger] self.tm.same_slot(
                            &old(self).tm,
                            k,
                            p,
                        ) by {
                            assert(before.tm.same_slot(&old(self).tm, k, p));
                            if !has_table(kind) {
                            } else if crate::cache::slot_index(k, p) != crate::cache::slot_index(
                                kind,
                                kind.parity_spec(),
                            ) {
                                assert(self.tm.same_slot(&before.tm, k, p));
                            } else {
                                self.tm.lemma_no_slot(k, p);
                                before.tm.lemma_no_slot(k, p);
                            }
                        }
                        assert forall|k: PE, p: int| #[trigger] self.tm.in_use(k, p) == old(self).tm.in_use(k, p) by {
                            assert(before.tm.in_use(k, p) == old(self).tm.in_use(k, p));
                            if crate::cache::slot_index(k, p) != crate::cache::slot_index(kind, kind.parity_spec()) {
                                assert(self.tm.same_slot(&before.tm, k, p));
                            } else if crate::cache::is_slot(k, p) {
                                self.tm.lemma_same_family(k, kind, p);
                                before.tm.lemma_same_family(k, kind, p);
                            } else {
                                self.tm.lemma_no_slot(k, p);
                                before.tm.lemma_no_slot(k, p);
                            }
                        }
                    }
                },
                None => {},
            }
            u = u + 1;
        }
        proof {
            assert forall|k: PE, p: int| !SimApp::tabled_slot(k, p) implies #[trigger] self.tm.mesh(k, p) == old(
                self,
            ).tm.mesh(k, p) by {
                assert(self.tm.same_slot(&old(self).tm, k, p));
            }
            assert forall|k: PE, p: int| !SimApp::tabled_slot(k, p) implies #[trigger] self.tm.star_shaped(k, p)
                == old(self).tm.star_shaped(k, p) by {
                assert(self.tm.same_slot(&old(self).tm, k, p));
            }
        }
    }
}

} // verus!
