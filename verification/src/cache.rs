//! The mesh slot cache: one slot for each family of solids and parity, set
//! up before use and never changed once an instance was built from it.

use vstd::prelude::*;
use crate::generator::{generate, generated, has_table, lemma_tabled_is_star_shaped};
use crate::geometry::{GeometryError, Polyhedron};
use crate::solids::MAX_SCALE;
use crate::kind::{PE, FAMILY_COUNT};

verus! {

/// Number of slots.
pub const SLOT_COUNT: usize = 40;

/// Why a slot was not set up.
#[derive(Debug, Clone, Copy, PartialEq, Eq, Structural)]
pub enum SetupError {
    /// There is no slot for the end mark, nor for a parity above one.
    NoSlot,
    /// An instance was built from the slot.
    SlotInUse,
    /// The mesh is no descriptor of the solid.
    Geometry(GeometryError),
}

/// One entry of the cache.
pub struct Slot {
    mesh: Option<Polyhedron>,
    star_shaped: bool,
    lent: bool,
}

/// The arena of mesh slots.
pub struct SlotCache {
    slots: Vec<Slot>,
}

/// Where the slot of a family and parity stands.
pub open spec fn slot_index(kind: PE, parity: int) -> int {
    kind.family_spec() * 2 + parity
}

/// Whether a solid and a parity name a slot.
pub open spec fn is_slot(kind: PE, parity: int) -> bool {
    kind.is_solid() && 0 <= parity <= 1
}

impl SlotCache {
    /// What every cache keeps: all its slots, a mesh in every slot that an
    /// instance was built from, and in every slot that is set up a mesh
    /// that fits the solid it was set up for.
    pub closed spec fn wf(&self) -> bool {
        &&& self.slots@.len() == SLOT_COUNT
        &&& forall|i: int|
            0 <= i < SLOT_COUNT ==> {
                let slot = #[trigger] self.slots@[i];
                &&& slot.lent ==> slot.mesh is Some
                &&& slot.mesh is Some ==> slot.mesh->0.fits(slot.star_shaped)
            }
    }

    /// The mesh in the slot, `None` where the slot is not set up or is none.
    pub closed spec fn mesh(&self, kind: PE, parity: int) -> Option<Polyhedron> {
        if is_slot(kind, parity) {
            self.slots@[slot_index(kind, parity)].mesh
        } else {
            None
        }
    }

    /// Whether an instance was built from the slot.
    pub closed spec fn in_use(&self, kind: PE, parity: int) -> bool {
        is_slot(kind, parity) && self.slots@[slot_index(kind, parity)].lent
    }

    /// Whether the slot was set up for a star-shaped solid.
    pub closed spec fn star_shaped(&self, kind: PE, parity: int) -> bool {
        is_slot(kind, parity) && self.slots@[slot_index(kind, parity)].star_shaped
    }

    /// A slot is known by what it holds: caches that agree on every slot are equal
    /// in all that the cache is asked.
    pub open spec fn same_slot(&self, other: &SlotCache, kind: PE, parity: int) -> bool {
        &&& self.mesh(kind, parity) == other.mesh(kind, parity)
        &&& self.in_use(kind, parity) == other.in_use(kind, parity)
        &&& self.star_shaped(kind, parity) == other.star_shaped(kind, parity)
    }

    /// A slot in use holds a mesh, and a mesh in a slot fits the solid it
    /// was set up for: its indices name vertices, and where the solid is
    /// star-shaped its triangles and planes look away from the centroid.
    pub proof fn lemma_slots(&self, kind: PE, parity: int)
        requires
            self.wf(),
        ensures
            self.in_use(kind, parity) ==> self.mesh(kind, parity) is Some,
            self.mesh(kind, parity) is Some ==> self.mesh(kind, parity)->0.fits(self.star_shaped(kind, parity)),
    {
        if is_slot(kind, parity) {
            let slot = self.slots@[slot_index(kind, parity)];
        }
    }

    /// A slot is one whichever solid of its family names it.
    pub proof fn lemma_same_family(&self, kind: PE, other: PE, parity: int)
        requires
            kind.family_spec() == other.family_spec(),
        ensures
            self.mesh(kind, parity) == self.mesh(other, parity),
            self.in_use(kind, parity) == self.in_use(other, parity),
            self.star_shaped(kind, parity) == self.star_shaped(other, parity),
    {
    }

    /// What names no slot holds nothing and is not in use.
    pub proof fn lemma_no_slot(&self, kind: PE, parity: int)
        requires
            !is_slot(kind, parity),
        ensures
            self.mesh(kind, parity) is None,
            !self.in_use(kind, parity),
            !self.star_shaped(kind, parity),
    {
    }

    /// A cache with every slot vacant.
    pub fn new() -> (cache: SlotCache)
        ensures
            cache.wf(),
            forall|kind: PE, parity: int| #[trigger] cache.mesh(kind, parity) is None,
            forall|kind: PE, parity: int| !#[trigger] cache.in_use(kind, parity),
    {
        let mut slots: Vec<Slot> = Vec::new();
        let mut i: usize = 0;
        while i < SLOT_COUNT
            invariant
                0 <= i <= SLOT_COUNT,
                slots@.len() == i,
                forall|k: int| 0 <= k < i ==> (#[trigger] slots@[k]).mesh is None && !slots@[k].lent,
            decreases SLOT_COUNT - i,
        {
            slots.push(Slot { mesh: None, star_shaped: false, lent: false });
            i = i + 1;
        }
        SlotCache { slots }
    }

    /// Stores `mesh`, made elsewhere, as the mesh of `kind` in the slot of
    /// its family and `parity`. The mesh is held to the rules for the solid
    /// first. A slot that an instance was built from is not touched.
    pub fn install(&mut self, kind: PE, parity: usize, mesh: Polyhedron) -> (r: Result<(), SetupError>)
        requires
            old(self).wf(),
        ensures
            final(self).wf(),
            r == (if !is_slot(kind, parity as int) {
                Err::<(), SetupError>(SetupError::NoSlot)
            } else if old(self).in_use(kind, parity as int) {
                Err(SetupError::SlotInUse)
            } else {
                match mesh.fault_as(kind.star_shaped_spec()) {
                    Some(e) => Err(SetupError::Geometry(e)),
                    None => Ok(()),
                }
            }),
            r is Err ==> *final(self) == *old(self),
            r is Ok ==> final(self).mesh(kind, parity as int) == Some(mesh) && !final(self).in_use(kind, parity as int)
                && final(self).star_shaped(kind, parity as int) == kind.star_shaped_spec(),
            forall|k: PE, p: int|
                slot_index(k, p) != slot_index(kind, parity as int) ==> #[trigger] final(self).mesh(k, p) == old(
                    self,
                ).mesh(k, p),
            forall|k: PE, p: int|
                slot_index(k, p) != slot_index(kind, parity as int) ==> #[trigger] final(self).in_use(k, p) == old(
                    self,
                ).in_use(k, p),
            forall|k: PE, p: int|
                slot_index(k, p) != slot_index(kind, parity as int) ==> #[trigger] final(self).star_shaped(k, p)
                    == old(self).star_shaped(k, p),
    {
        let family = kind.family();
        if family >= FAMILY_COUNT || parity > 1 {
            return Err(SetupError::NoSlot);
        }
        let at = family * 2 + parity;
        if self.slots[at].lent {
            return Err(SetupError::SlotInUse);
        }
        let star = kind.star_shaped();
        match mesh.check_as(star) {
            Err(e) => Err(SetupError::Geometry(e)),
            Ok(()) => {
                self.slots[at] = Slot { mesh: Some(mesh), star_shaped: star, lent: false };
                Ok(())
            },
        }
    }

    /// Generates the mesh of `kind` at `scale` hundredths and stores it in
    /// the slot of its family and `parity`. A slot that an instance was
    /// built from is not touched, whatever the scale; nor is any slot where
    /// nothing can be generated.
    pub fn setup(&mut self, kind: PE, parity: usize, scale: u32) -> (r: Result<(), SetupError>)
        requires
            old(self).wf(),
        ensures
            final(self).wf(),
            r == (if !is_slot(kind, parity as int) {
                Err::<(), SetupError>(SetupError::NoSlot)
            } else if old(self).in_use(kind, parity as int) {
                Err(SetupError::SlotInUse)
            } else if !(1 <= scale <= MAX_SCALE) {
                Err(SetupError::Geometry(GeometryError::Scale))
            } else if !has_table(kind) {
                Err(SetupError::Geometry(GeometryError::NoTable))
            } else {
                Ok(())
            }),
            r is Err ==> *final(self) == *old(self),
            r is Ok ==> {
                let mesh = final(self).mesh(kind, parity as int);
                &&& mesh is Some
                &&& generated(kind, scale, &mesh->0)
                &&& mesh->0.valid()
                &&& !final(self).in_use(kind, parity as int)
                &&& final(self).star_shaped(kind, parity as int)
            },
            forall|k: PE, p: int|
                slot_index(k, p) != slot_index(kind, parity as int) ==> #[trigger] final(self).mesh(k, p) == old(
                    self,
                ).mesh(k, p),
            forall|k: PE, p: int|
                slot_index(k, p) != slot_index(kind, parity as int) ==> #[trigger] final(self).in_use(k, p) == old(
                    self,
                ).in_use(k, p),
            forall|k: PE, p: int|
                slot_index(k, p) != slot_index(kind, parity as int) ==> #[trigger] final(self).star_shaped(k, p)
                    == old(self).star_shaped(k, p),
    {
        let family = kind.family();
        if family >= FAMILY_COUNT || parity > 1 {
            return Err(SetupError::NoSlot);
        }
        if self.slots[family * 2 + parity].lent {
            return Err(SetupError::SlotInUse);
        }
        match generate(kind, scale) {
            Err(e) => Err(SetupError::Geometry(e)),
            Ok(mesh) => {
                proof {
                    lemma_tabled_is_star_shaped(kind);
                    mesh.lemma_fault_free();
                }
                self.install(kind, parity, mesh)
            },
        }
    }

    /// The mesh in the slot of the family of `kind` and `parity`; `None`
    /// where the slot is not set up or is none. Nothing is changed.
    pub fn get(&self, kind: PE, parity: usize) -> (r: Option<&Polyhedron>)
        requires
            self.wf(),
        ensures
            r is Some <==> self.mesh(kind, parity as int) is Some,
            r is Some ==> *r->0 == self.mesh(kind, parity as int)->0,
    {
        let family = kind.family();
        if family >= FAMILY_COUNT || parity > 1 {
            return None;
        }
        self.slots[family * 2 + parity].mesh.as_ref()
    }

    /// Records that an instance is built from the slot, which from then on
    /// keeps its mesh. Says whether the slot holds one; a slot that does not
    /// stays as it was.
    pub fn claim(&mut self, kind: PE, parity: usize) -> (r: bool)
        requires
            old(self).wf(),
        ensures
            final(self).wf(),
            r == old(self).mesh(kind, parity as int) is Some,
            final(self).in_use(kind, parity as int) == (r || old(self).in_use(kind, parity as int)),
            forall|k: PE, p: int| #[trigger] final(self).mesh(k, p) == old(self).mesh(k, p),
            forall|k: PE, p: int| #[trigger] final(self).star_shaped(k, p) == old(self).star_shaped(k, p),
            forall|k: PE, p: int|
                #[trigger] final(self).in_use(k, p) == (old(self).in_use(k, p) || (r && is_slot(k, p) && slot_index(k, p)
                    == slot_index(kind, parity as int))),
            !r ==> *final(self) == *old(self),
    {
        let family = kind.family();
        if family >= FAMILY_COUNT || parity > 1 {
            return false;
        }
        let at = family * 2 + parity;
        if self.slots[at].mesh.is_none() {
            return false;
        }
        self.slots[at].lent = true;
        true
    }

    /// Whether an instance was built from the slot.
    pub fn is_in_use(&self, kind: PE, parity: usize) -> (r: bool)
        requires
            self.wf(),
        ensures
            r == self.in_use(kind, parity as int),
    {
        let family = kind.family();
        if family >= FAMILY_COUNT || parity > 1 {
            return false;
        }
        self.slots[family * 2 + parity].lent
    }
}

} // verus!
