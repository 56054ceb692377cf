//! The grab/drop state machine and the joint it keeps in lock-step.
//!
//! On a rising edge of the grab input while the hand is empty, the engine
//! hit-tests the hand's grab point against every grabbable bounding box; the
//! first overlapping object is carried: a fixed joint is created between the
//! object and the hand, and the object is raised in draw order. On a rising
//! edge while holding, the joint is destroyed, the relationship cleared and
//! the draw order restored — unconditionally, even if the held object has
//! vanished from the world.

use vstd::prelude::*;

use crate::geometry::{rect_contains, Vec2I};
use crate::hand::{spec_is_holding, Grabbing, Hand, HAND_OFFSET};
use crate::object::{spec_object_hit, TrackedObject, DEFAULT_Z, HELD_Z};

verus! {

/// A fixed constraint between the held object and the hand, anchored at the
/// given local offsets, owned by the physics world and referenced here by
/// its handle.
#[derive(Clone, Copy, PartialEq, Eq, Debug)]
pub struct Joint {
    /// Handle under which the physics world knows the joint.
    pub handle: u64,
    /// The held object's body.
    pub object: u64,
    /// The hand's body.
    pub hand: u64,
    /// Anchor in the object's local frame.
    pub object_anchor: Vec2I,
    /// Anchor in the hand's local frame.
    pub hand_anchor: Vec2I,
}

/// The joint a grab creates: anchored at the object's origin and at the
/// hand-local point matching the grab offset.
pub open spec fn spec_new_joint(handle: u64, object: u64, hand_id: u64) -> Joint {
    Joint {
        handle,
        object,
        hand: hand_id,
        object_anchor: Vec2I { x: 0, y: 0 },
        hand_anchor: Vec2I { x: 0, y: (0 - HAND_OFFSET) as i64 },
    }
}

/// The grab engine: the live joints it has created and the next fresh
/// handle. Only the engine creates or destroys these joints, within the same
/// tick as the matching state transition.
#[derive(Debug)]
pub struct GrabEngine {
    /// Joints currently alive in the physics world on the engine's behalf.
    pub joints: Vec<Joint>,
    /// Handle the next created joint will receive.
    pub next_handle: u64,
}

/// There is an object under the grab point.
pub open spec fn any_hit(objects: Seq<TrackedObject>, p: Vec2I) -> bool {
    exists|j: int| 0 <= j < objects.len() && spec_object_hit(objects[j], p)
}

/// `i` is the first index whose object the grab point hits.
pub open spec fn is_first_hit(objects: Seq<TrackedObject>, p: Vec2I, i: int) -> bool {
    &&& 0 <= i < objects.len()
    &&& spec_object_hit(objects[i], p)
    &&& forall|j: int| 0 <= j < i ==> !spec_object_hit(objects[j], p)
}

/// One sampled input: the next state the toggle takes. A tick without a
/// rising edge keeps the state; an edge while holding always drops; an edge
/// while empty grabs exactly when something is under the grab point.
pub open spec fn spec_toggle_step(holding: bool, pressed: bool, hit: bool) -> bool {
    if !pressed {
        holding
    } else if holding {
        false
    } else {
        hit
    }
}

/// The state after a whole sequence of sampled inputs, with an object under
/// the grab point at every tick.
pub open spec fn spec_run_toggle(holding: bool, presses: Seq<bool>) -> bool
    decreases presses.len(),
{
    if presses.len() == 0 {
        holding
    } else {
        spec_run_toggle(spec_toggle_step(holding, presses[0], true), presses.drop_first())
    }
}

/// How many of the sampled inputs are rising edges.
pub open spec fn count_presses(presses: Seq<bool>) -> nat
    decreases presses.len(),
{
    if presses.len() == 0 {
        0
    } else {
        (if presses[0] {
            1nat
        } else {
            0nat
        }) + count_presses(presses.drop_first())
    }
}

/// Toggle law: over any sequence of sampled grab inputs, with an object
/// always under the grab point, the state alternates between empty and
/// holding on each rising edge — it ends holding exactly when the number of
/// rising edges flips the initial state — and ticks without a rising edge
/// change nothing.
pub proof fn lemma_toggle_alternates(holding: bool, presses: Seq<bool>)
    ensures
        spec_run_toggle(holding, presses) == (holding != (count_presses(presses) % 2 == 1)),
    decreases presses.len(),
{
    if presses.len() > 0 {
        let next = spec_toggle_step(holding, presses[0], true);
        lemma_toggle_alternates(next, presses.drop_first());
    }
}

/// Find the first object the grab point `p` hits: grabbable, box known, and
/// the point inside the box. Ties among overlapping objects go to the
/// earliest position in the slice, the stable iteration order of the world.
pub fn hit_test(objects: &Vec<TrackedObject>, p: Vec2I) -> (r: Option<usize>)
    ensures
        match r {
            Some(i) => is_first_hit(objects@, p, i as int),
            None => forall|j: int| 0 <= j < objects@.len() ==> !spec_object_hit(objects@[j], p),
        },
{
    let mut i: usize = 0;
    while i < objects.len()
        invariant
            i <= objects@.len(),
            forall|j: int| 0 <= j < i ==> !spec_object_hit(objects@[j], p),
        decreases objects@.len() - i,
    {
        let o = &objects[i];
        let inside = match &o.bounding_box {
            Some(b) => rect_contains(&b.0, p),
            None => false,
        };
        if o.grabbable && inside {
            return Some(i);
        }
        i = i + 1;
    }
    None
}

/// Find the first object carrying the given identity, if it still exists.
pub fn find_object(objects: &Vec<TrackedObject>, id: u64) -> (r: Option<usize>)
    ensures
        match r {
            Some(k) => (k as int) < objects@.len() && objects@[k as int].id == id
                && (forall|j: int| 0 <= j < k ==> objects@[j].id != id),
            None => forall|j: int| 0 <= j < objects@.len() ==> objects@[j].id != id,
        },
{
    let mut i: usize = 0;
    while i < objects.len()
        invariant
            i <= objects@.len(),
            forall|j: int| 0 <= j < i ==> objects@[j].id != id,
        decreases objects@.len() - i,
    {
        if objects[i].id == id {
            return Some(i);
        }
        i = i + 1;
    }
    None
}

impl GrabEngine {
    /// The number of joints currently alive.
    pub open spec fn live_joints(self) -> nat {
        self.joints@.len()
    }

    /// The core invariant tying the engine to its hand: exactly one live
    /// joint while the hand holds an object — the very joint the carry
    /// relationship references — and none while it is empty. No tick ever
    /// observes a relationship without its joint or a joint without its
    /// relationship.
    pub open spec fn consistent_with(self, hand: Hand) -> bool {
        match hand.grabbing {
            None => self.joints@.len() == 0,
            Some(g) => self.joints@.len() == 1 && self.joints@[0].handle == g.joint
                && self.joints@[0].object == g.held_object,
        }
    }

    /// A fresh engine: no joints yet.
    pub fn new() -> (e: GrabEngine)
        ensures
            e.live_joints() == 0,
            e.next_handle == 0,
            forall|h: Hand| h.grabbing is None ==> e.consistent_with(h),
    {
        GrabEngine { joints: Vec::new(), next_handle: 0 }
    }

    /// The number of live joints, for callers outside the verified world.
    pub fn live_joint_count(&self) -> (n: usize)
        ensures
            n == self.live_joints(),
    {
        self.joints.len()
    }

    /// Whether the engine is consistent with the hand, decided at run time.
    pub fn consistent_check(&self, hand: &Hand) -> (b: bool)
        ensures
            b == self.consistent_with(*hand),
    {
        match hand.grabbing {
            None => self.joints.len() == 0,
            Some(g) => self.joints.len() == 1 && self.joints[0].handle == g.joint
                && self.joints[0].object == g.held_object,
        }
    }

    /// Destroy the first joint held under `handle`, returning where it
    /// stood; the engine is untouched when no joint has that handle.
    pub fn remove_joint(&mut self, handle: u64) -> (r: Option<usize>)
        ensures
            final(self).next_handle == old(self).next_handle,
            match r {
                Some(i) => (i as int) < old(self).joints@.len() && old(self).joints@[i as int].handle
                    == handle && (forall|j: int| 0 <= j < i ==> old(self).joints@[j].handle != handle)
                    && final(self).joints@ == old(self).joints@.remove(i as int),
                None => *final(self) == *old(self) && (forall|j: int|
                    0 <= j < old(self).joints@.len() ==> old(self).joints@[j].handle != handle),
            },
    {
        let mut i: usize = 0;
        while i < self.joints.len()
            invariant
                i <= self.joints@.len(),
                *self == *old(self),
                forall|j: int| 0 <= j < i ==> old(self).joints@[j].handle != handle,
            decreases self.joints@.len() - i,
        {
            if self.joints[i].handle == handle {
                let _removed = self.joints.remove(i);
                return Some(i);
            }
            i = i + 1;
        }
        None
    }

    /// The grab transition. On a rising edge while the hand is empty, test
    /// the grab point against every grabbable bounding box; carry the first
    /// overlapping object: record the relationship, create the fixed joint
    /// (anchored at the object's origin and at the hand-local grab offset),
    /// and raise the object's draw order. A press over empty space, or a
    /// tick without a rising edge, changes nothing.
    pub fn grab(
        &mut self,
        hand: &mut Hand,
        hand_id: u64,
        objects: &mut Vec<TrackedObject>,
        just_pressed: bool,
    ) -> (r: Option<usize>)
        requires
            old(hand).wf(),
            old(hand).grabbing is None,
            old(self).next_handle < u64::MAX,
        ensures
            final(hand).wf(),
            final(hand).position == old(hand).position,
            final(hand).velocity == old(hand).velocity,
            !just_pressed ==> r is None && *final(self) == *old(self) && *final(hand) == *old(hand)
                && final(objects)@ == old(objects)@,
            just_pressed ==> match r {
                None => (forall|j: int|
                    0 <= j < old(objects)@.len() ==> !spec_object_hit(
                        old(objects)@[j],
                        old(hand).spec_grab_point(),
                    )) && *final(self) == *old(self) && *final(hand) == *old(hand) && final(objects)@ == old(objects)@,
                Some(i) => {
                    &&& is_first_hit(old(objects)@, old(hand).spec_grab_point(), i as int)
                    &&& final(hand).grabbing == Some(
                        Grabbing {
                            held_object: old(objects)@[i as int].id,
                            joint: old(self).next_handle,
                        },
                    )
                    &&& final(self).joints@ == old(self).joints@.push(
                        spec_new_joint(old(self).next_handle, old(objects)@[i as int].id, hand_id),
                    )
                    &&& final(self).next_handle == old(self).next_handle + 1
                    &&& final(objects)@ == old(objects)@.update(
                        i as int,
                        (TrackedObject { z_order: HELD_Z, ..old(objects)@[i as int] }),
                    )
                },
            },
            spec_is_holding(*final(hand)) == spec_toggle_step(
                spec_is_holding(*old(hand)),
                just_pressed,
                any_hit(old(objects)@, old(hand).spec_grab_point()),
            ),
            old(self).consistent_with(*old(hand)) ==> final(self).consistent_with(*final(hand)),
    {
        if !just_pressed {
            return None;
        }
        let p = hand.grab_point();
        match hit_test(objects, p) {
            None => None,
            Some(i) => {
                let id = objects[i].id;
                let joint = Joint {
                    handle: self.next_handle,
                    object: id,
                    hand: hand_id,
                    object_anchor: Vec2I { x: 0, y: 0 },
                    hand_anchor: Vec2I { x: 0, y: -HAND_OFFSET },
                };
                self.joints.push(joint);
                self.next_handle = self.next_handle + 1;
                hand.grabbing = Some(Grabbing { held_object: id, joint: joint.handle });
                objects[i].z_order = HELD_Z;
                Some(i)
            },
        }
    }

    /// The drop transition. On a rising edge while holding, destroy the
    /// joint, clear the carry relationship and restore the held object's
    /// draw order. The drop always succeeds: a held object that no longer
    /// exists in the world still has the relationship and the joint torn
    /// down, with nothing else touched. On an empty hand, or without a
    /// rising edge, nothing changes.
    pub fn drop_grab(
        &mut self,
        hand: &mut Hand,
        objects: &mut Vec<TrackedObject>,
        just_pressed: bool,
    ) -> (restored: Option<usize>)
        requires
            old(self).consistent_with(*old(hand)),
        ensures
            final(hand).position == old(hand).position,
            final(hand).velocity == old(hand).velocity,
            final(self).next_handle == old(self).next_handle,
            final(self).consistent_with(*final(hand)),
            (!just_pressed || old(hand).grabbing is None) ==> restored is None && *final(self)
                == *old(self) && *final(hand) == *old(hand) && final(objects)@ == old(objects)@,
            old(hand).grabbing matches Some(g) ==> just_pressed ==> {
                &&& final(hand).grabbing is None
                &&& final(self).live_joints() == 0
                &&& match restored {
                    Some(k) => (k as int) < old(objects)@.len() && old(objects)@[k as int].id
                        == g.held_object && (forall|j: int|
                        0 <= j < k ==> old(objects)@[j].id != g.held_object) && final(objects)@
                        == old(objects)@.update(
                        k as int,
                        (TrackedObject { z_order: DEFAULT_Z, ..old(objects)@[k as int] }),
                    ),
                    None => (forall|j: int|
                        0 <= j < old(objects)@.len() ==> old(objects)@[j].id != g.held_object)
                        && final(objects)@ == old(objects)@,
                }
            },
            spec_is_holding(*final(hand)) == (spec_is_holding(*old(hand)) && !just_pressed),
    {
        if !just_pressed {
            return None;
        }
        let grabbing = match hand.grabbing {
            None => {
                return None;
            },
            Some(g) => g,
        };
        let _joint_slot = self.remove_joint(grabbing.joint);
        hand.grabbing = None;
        match find_object(objects, grabbing.held_object) {
            None => None,
            Some(k) => {
                objects[k].z_order = DEFAULT_Z;
                Some(k)
            },
        }
    }

    /// One engine step: the grab input sampled this tick drives the toggle.
    /// An empty hand attempts a grab; a holding hand drops. The returned
    /// index is the object grabbed or restored, when one was. The engine
    /// stays consistent with the hand, so the joint count always matches
    /// the state.
    pub fn tick(
        &mut self,
        hand: &mut Hand,
        hand_id: u64,
        objects: &mut Vec<TrackedObject>,
        just_pressed: bool,
    ) -> (r: Option<usize>)
        requires
            old(hand).wf(),
            old(self).consistent_with(*old(hand)),
            old(self).next_handle < u64::MAX,
        ensures
            final(hand).wf(),
            final(hand).position == old(hand).position,
            final(hand).velocity == old(hand).velocity,
            final(self).consistent_with(*final(hand)),
            spec_is_holding(*final(hand)) == spec_toggle_step(
                spec_is_holding(*old(hand)),
                just_pressed,
                any_hit(old(objects)@, old(hand).spec_grab_point()),
            ),
            !just_pressed ==> r is None && *final(self) == *old(self) && *final(hand) == *old(hand)
                && final(objects)@ == old(objects)@,
            old(hand).grabbing is None && just_pressed ==> match r {
                None => (forall|j: int|
                    0 <= j < old(objects)@.len() ==> !spec_object_hit(
                        old(objects)@[j],
                        old(hand).spec_grab_point(),
                    )) && *final(self) == *old(self) && *final(hand) == *old(hand) && final(objects)@ == old(objects)@,
                Some(i) => {
                    &&& is_first_hit(old(objects)@, old(hand).spec_grab_point(), i as int)
                    &&& final(hand).grabbing == Some(
                        Grabbing {
                            held_object: old(objects)@[i as int].id,
                            joint: old(self).next_handle,
                        },
                    )
                    &&& final(self).joints@ == old(self).joints@.push(
                        spec_new_joint(old(self).next_handle, old(objects)@[i as int].id, hand_id),
                    )
                    &&& final(self).next_handle == old(self).next_handle + 1
                    &&& final(objects)@ == old(objects)@.update(
                        i as int,
                        (TrackedObject { z_order: HELD_Z, ..old(objects)@[i as int] }),
                    )
                },
            },
            old(hand).grabbing matches Some(g) ==> just_pressed ==> {
                &&& final(hand).grabbing is None
                &&& final(self).live_joints() == 0
                &&& final(self).next_handle == old(self).next_handle
                &&& match r {
                    Some(k) => (k as int) < old(objects)@.len() && old(objects)@[k as int].id
                        == g.held_object && (forall|j: int|
                        0 <= j < k ==> old(objects)@[j].id != g.held_object) && final(objects)@
                        == old(objects)@.update(
                        k as int,
                        (TrackedObject { z_order: DEFAULT_Z, ..old(objects)@[k as int] }),
                    ),
                    None => (forall|j: int|
                        0 <= j < old(objects)@.len() ==> old(objects)@[j].id != g.held_object)
                        && final(objects)@ == old(objects)@,
                }
            },
    {
        let holding = hand.grabbing.is_some();
        if holding {
            self.drop_grab(hand, objects, just_pressed)
        } else {
            self.grab(hand, hand_id, objects, just_pressed)
        }
    }
}

/// Joint lifecycle law: while the engine is consistent with its hand — and
/// every engine step keeps it so — the number of live joints is exactly one
/// while the hand holds an object and exactly zero while it is empty.
pub proof fn lemma_joint_lifecycle(engine: GrabEngine, hand: Hand)
    requires
        engine.consistent_with(hand),
    ensures
        spec_is_holding(hand) ==> engine.live_joints() == 1,
        !spec_is_holding(hand) ==> engine.live_joints() == 0,
{
}

} // verus!
