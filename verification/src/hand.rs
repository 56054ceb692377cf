//! The cursor-driven hand: its position, velocity, and grab state.
//!
//! Each tick the hand is steered toward a goal derived from the cursor by
//! setting its velocity directly; the physics collaborator integrates the
//! velocity. When the cursor yields no world point the velocity is left as
//! it was, so the hand neither jitters nor stalls to zero.

use vstd::prelude::*;

use crate::geometry::{vec_in_range, Vec2I};

verus! {

/// Vertical offset between the hand's rendered position and its grab point;
/// the grab region sits this far (negated) above the sprite's center.
pub const HAND_OFFSET: i64 = -500;

/// Factor applied to the remaining distance to the goal when steering.
pub const STEER_GAIN: i64 = 5;

/// The carry relationship that exists exactly while an object is held: the
/// held object and the physics joint that enforces the carry. Its presence
/// is the sole source of truth for "is something held".
#[derive(Clone, Copy, PartialEq, Eq, Debug)]
pub struct Grabbing {
    /// Identity of the held object.
    pub held_object: u64,
    /// Handle of the fixed joint created for this carry.
    pub joint: u64,
}

/// The hand entity: a puppeted body steered toward the cursor.
#[derive(Clone, Copy, PartialEq, Eq, Debug)]
pub struct Hand {
    /// World position of the hand's center.
    pub position: Vec2I,
    /// Velocity handed to the physics collaborator for integration.
    pub velocity: Vec2I,
    /// The carry relationship, present exactly while an object is held.
    pub grabbing: Option<Grabbing>,
}

/// Whether the hand currently holds an object.
pub open spec fn spec_is_holding(h: Hand) -> bool {
    h.grabbing is Some
}

impl Hand {
    /// The hand's position is small enough that the grab point and the
    /// steering arithmetic stay in range.
    pub open spec fn wf(self) -> bool {
        vec_in_range(self.position)
    }

    /// The world point tested against bounding boxes: the hand's position
    /// shifted vertically by the negated `HAND_OFFSET`.
    pub open spec fn spec_grab_point(self) -> Vec2I {
        Vec2I { x: self.position.x, y: (self.position.y - HAND_OFFSET) as i64 }
    }

    /// A new hand: empty, at rest, at the given position.
    pub fn new(position: Vec2I) -> (h: Hand)
        requires
            vec_in_range(position),
        ensures
            h.position == position,
            h.velocity == (Vec2I { x: 0, y: 0 }),
            h.grabbing is None,
            h.wf(),
    {
        Hand { position, velocity: Vec2I { x: 0, y: 0 }, grabbing: None }
    }

    /// The grab point of the hand as it stands.
    pub fn grab_point(&self) -> (p: Vec2I)
        requires
            self.wf(),
        ensures
            p == self.spec_grab_point(),
            p.x == self.position.x,
            p.y == self.position.y - HAND_OFFSET,
    {
        Vec2I { x: self.position.x, y: self.position.y - HAND_OFFSET }
    }

    /// Steer the hand toward the cursor: the goal is the cursor shifted by
    /// `HAND_OFFSET`, and the velocity is set to the remaining distance
    /// scaled by `STEER_GAIN`. With no cursor point this tick (cursor
    /// outside the viewport), the velocity keeps its previous value.
    pub fn move_hand(&mut self, cursor: Option<Vec2I>)
        requires
            old(self).wf(),
            cursor matches Some(c) ==> vec_in_range(c),
        ensures
            final(self).wf(),
            final(self).position == old(self).position,
            final(self).grabbing == old(self).grabbing,
            cursor is None ==> final(self).velocity == old(self).velocity,
            cursor matches Some(c) ==> final(self).velocity == (Vec2I {
                x: ((c.x - old(self).position.x) * STEER_GAIN) as i64,
                y: ((c.y + HAND_OFFSET - old(self).position.y) * STEER_GAIN) as i64,
            }),
    {
        match cursor {
            None => {},
            Some(c) => {
                let goal_x = c.x;
                let goal_y = c.y + HAND_OFFSET;
                self.velocity = Vec2I {
                    x: (goal_x - self.position.x) * STEER_GAIN,
                    y: (goal_y - self.position.y) * STEER_GAIN,
                };
            },
        }
    }
}

/// Whether `h.wf()` holds, decided at run time, for callers outside the
/// verified world.
pub fn hand_wf_check(h: &Hand) -> (b: bool)
    ensures
        b == h.wf(),
{
    crate::geometry::vec2_in_range(h.position)
}

} // verus!
