//! What the engine asks the frame loop to do.

use vstd::prelude::*;
use vstd::string::*;
use crate::kind::PE;
use crate::space::Point;
use crate::tracker::BodyId;

verus! {

/// A piece of scenery that a number key drops.
#[derive(Debug, Clone, Copy, PartialEq, Eq, Structural)]
pub enum Prop {
    Bunny,
    Tetra,
    Cube,
    Icosahedron,
    Ball,
    Composite,
    BoxSmall,
}

/// A reading of the clock: what has passed since the start.
#[derive(Debug, Clone, Copy, PartialEq, Eq, Structural)]
pub struct Reading {
    pub nanos: u128,
    pub secs: u64,
}

/// An instance to create from a mesh slot.
#[derive(Debug)]
pub struct Spawn {
    /// The name of the instance.
    pub key: String,
    /// The solid.
    pub kind: PE,
    /// The parity of its mesh slot.
    pub parity: usize,
    /// Where it is put.
    pub at: Point,
    /// How it is turned: a number below `POSE_COUNT`.
    pub pose: usize,
    /// Its colour: a number below `TINT_COUNT`.
    pub tint: usize,
}

/// One request to the frame loop.
#[derive(Debug)]
pub enum Action {
    /// Destroy the body and its geometries.
    Destroy(BodyId),
    /// Create the instance. It does not yet collide or fall.
    Spawn(Spawn),
    /// Let the instance of this name collide, fall and move.
    Release(String),
    /// Put the instance of this name at the place.
    Place(String, Point),
    /// Drop a piece of scenery.
    Drop(Prop),
    /// Wake the apple, or put it to sleep.
    ToggleApple,
    /// Give the loose scenery a push.
    Push,
    /// Report the big ball and lift it.
    ShowBigBall,
    /// Recolour the big ball while listing the bodies.
    Recolor,
    /// List the bodies.
    ListAll,
    /// Print the key bindings.
    Help,
}

/// A spawn as contracts see it.
pub struct SpawnView {
    pub key: Seq<char>,
    pub kind: PE,
    pub parity: int,
    pub at: Point,
    pub pose: int,
    pub tint: int,
}

/// A request as contracts see it.
pub enum ActionView {
    Destroy(BodyId),
    Spawn(SpawnView),
    Release(Seq<char>),
    Place(Seq<char>, Point),
    Drop(Prop),
    ToggleApple,
    Push,
    ShowBigBall,
    Recolor,
    ListAll,
    Help,
}

impl View for Spawn {
    type V = SpawnView;

    open spec fn view(&self) -> SpawnView {
        SpawnView {
            key: self.key@,
            kind: self.kind,
            parity: self.parity as int,
            at: self.at,
            pose: self.pose as int,
            tint: self.tint as int,
        }
    }
}

impl View for Action {
    type V = ActionView;

    open spec fn view(&self) -> ActionView {
        match self {
            Action::Destroy(id) => ActionView::Destroy(*id),
            Action::Spawn(s) => ActionView::Spawn(s@),
            Action::Release(key) => ActionView::Release(key@),
            Action::Place(key, at) => ActionView::Place(key@, *at),
            Action::Drop(prop) => ActionView::Drop(*prop),
            Action::ToggleApple => ActionView::ToggleApple,
            Action::Push => ActionView::Push,
            Action::ShowBigBall => ActionView::ShowBigBall,
            Action::Recolor => ActionView::Recolor,
            Action::ListAll => ActionView::ListAll,
            Action::Help => ActionView::Help,
        }
    }
}

/// A list of requests as contracts see it.
pub open spec fn action_views(actions: Seq<Action>) -> Seq<ActionView> {
    Seq::new(actions.len(), |i: int| actions[i]@)
}

/// The bodies that a list of requests destroys, in its order.
pub open spec fn destroyed(actions: Seq<ActionView>) -> Seq<BodyId>
    decreases actions.len(),
{
    if actions.len() == 0 {
        Seq::empty()
    } else {
        match actions.last() {
            ActionView::Destroy(id) => destroyed(actions.drop_last()).push(id),
            _ => destroyed(actions.drop_last()),
        }
    }
}

/// Whether a request creates an instance from the slot of a family and a
/// parity, and so puts the slot in use.
pub open spec fn claims_slot(action: ActionView, family: int, parity: int) -> bool {
    action is Spawn && action->Spawn_0.kind.family_spec() == family && action->Spawn_0.parity == parity
}

/// Whether a list of requests puts the slot of a family and a parity in use.
pub open spec fn claimed(actions: Seq<ActionView>, family: int, parity: int) -> bool {
    exists|i: int| 0 <= i < actions.len() && claims_slot(#[trigger] actions[i], family, parity)
}

/// What two lists in a row put in use is what either puts in use.
pub proof fn lemma_claimed_append(a: Seq<ActionView>, b: Seq<ActionView>, family: int, parity: int)
    ensures
        claimed(a + b, family, parity) == (claimed(a, family, parity) || claimed(b, family, parity)),
{
    if claimed(a, family, parity) {
        let i = choose|i: int| 0 <= i < a.len() && claims_slot(#[trigger] a[i], family, parity);
        assert((a + b)[i] == a[i]);
    }
    if claimed(b, family, parity) {
        let i = choose|i: int| 0 <= i < b.len() && claims_slot(#[trigger] b[i], family, parity);
        assert((a + b)[a.len() + i] == b[i]);
    }
    if claimed(a + b, family, parity) {
        let i = choose|i: int| 0 <= i < (a + b).len() && claims_slot(#[trigger] (a + b)[i], family, parity);
        if i < a.len() {
            assert(a[i] == (a + b)[i]);
        } else {
            assert(b[i - a.len()] == (a + b)[i]);
        }
    }
}

/// A list with one request that creates an instance puts in use what that
/// request puts in use.
pub proof fn lemma_claimed_by(actions: Seq<ActionView>, i: int, family: int, parity: int)
    requires
        0 <= i < actions.len(),
        forall|j: int| 0 <= j < actions.len() && j != i ==> !((#[trigger] actions[j]) is Spawn),
    ensures
        claimed(actions, family, parity) == claims_slot(actions[i], family, parity),
{
}

/// A list without a request that creates an instance puts nothing in use.
pub proof fn lemma_claimed_by_none(actions: Seq<ActionView>, family: int, parity: int)
    requires
        forall|j: int| 0 <= j < actions.len() ==> !((#[trigger] actions[j]) is Spawn),
    ensures
        !claimed(actions, family, parity),
{
}

/// The request to create an instance, if there is one to create.
pub open spec fn as_spawn(spawn: Option<Spawn>) -> Seq<ActionView> {
    match spawn {
        Some(s) => seq![ActionView::Spawn(s@)],
        None => Seq::empty(),
    }
}

/// Number of instances that a list of requests creates.
pub open spec fn spawn_count(actions: Seq<ActionView>) -> nat
    decreases actions.len(),
{
    if actions.len() == 0 {
        0
    } else {
        spawn_count(actions.drop_last()) + (if actions.last() is Spawn { 1nat } else { 0nat })
    }
}

} // verus!
