//! Bounding-box tracking for the objects of the simulation.
//!
//! Every trackable object carries its transform (position, scale, draw
//! order), the visual extent captured once from its image, and the
//! axis-aligned bounding box derived from them. The box is recomputed in the
//! same tick as any transform change, so the grab hit-test never sees a stale
//! box.

use vstd::prelude::*;

use crate::geometry::{
    rect_from_center_size, spec_rect_contains, spec_rect_from_center_size, spec_vec2_mul, vec2_mul,
    vec_in_range, vec_nonneg, Rect, Vec2I,
};

verus! {

/// Draw order given to an object while it is held, above its neighbours.
pub const HELD_Z: i64 = 1;

/// Draw order of an object that is not held.
pub const DEFAULT_Z: i64 = -1;

/// The pixel dimensions of an object's image, captured once when the image
/// resolves.
#[derive(Clone, Copy, PartialEq, Eq, Debug)]
pub struct ImageSize(pub Vec2I);

/// The axis-aligned rectangle enclosing an object's rendered extent, used
/// for hit-testing.
#[derive(Clone, Copy, PartialEq, Eq, Debug)]
pub struct BoundingBox(pub Rect);

/// An object of the simulation whose bounding box is tracked.
#[derive(Clone, Copy, Debug)]
pub struct TrackedObject {
    /// Stable identity of the object in the simulation world.
    pub id: u64,
    /// World position of the object's center.
    pub position: Vec2I,
    /// Componentwise scale applied to the visual extent.
    pub scale: Vec2I,
    /// Draw order; held objects are raised above the rest.
    pub z_order: i64,
    /// Visual extent, captured once when the image resolves; until then the
    /// object has no bounding box and is skipped by hit-testing.
    pub image_size: Option<ImageSize>,
    /// Bounding box derived from `position`, `image_size` and `scale`.
    pub bounding_box: Option<BoundingBox>,
    /// Size of the collision rectangle handed to the physics collaborator,
    /// once the object has both a body and a resolved image.
    pub collider: Option<Vec2I>,
    /// Whether the object participates in grab hit-testing.
    pub grabbable: bool,
    /// Whether the object has a rigid body in the physics world.
    pub has_body: bool,
}

impl TrackedObject {
    /// Coordinates small enough that every derived quantity fits in `i64`.
    pub open spec fn wf(self) -> bool {
        &&& vec_in_range(self.position)
        &&& vec_in_range(self.scale)
        &&& vec_nonneg(self.scale)
        &&& match self.image_size {
            Some(sz) => vec_in_range(sz.0) && vec_nonneg(sz.0),
            None => true,
        }
    }

    /// The visual extent once captured; meaningful only while `image_size`
    /// is present.
    pub open spec fn visual_extent(self) -> Vec2I {
        match self.image_size {
            Some(sz) => sz.0,
            None => Vec2I { x: 0, y: 0 },
        }
    }

    /// The box the current transform calls for: centered on the position,
    /// sized by the scaled visual extent.
    pub open spec fn spec_bbox(self) -> Rect {
        spec_rect_from_center_size(self.position, spec_vec2_mul(self.visual_extent(), self.scale))
    }

    /// The tracked box is exactly the one the current transform calls for;
    /// an object without a resolved image has no box.
    pub open spec fn bbox_fresh(self) -> bool {
        match self.image_size {
            Some(_) => self.bounding_box == Some(BoundingBox(self.spec_bbox())),
            None => self.bounding_box is None,
        }
    }

    /// A new object: transform known, image not yet resolved, no bounding
    /// box, no collider, default draw order.
    pub fn new(id: u64, position: Vec2I, scale: Vec2I, grabbable: bool, has_body: bool) -> (o:
        TrackedObject)
        requires
            vec_in_range(position),
            vec_in_range(scale),
            vec_nonneg(scale),
        ensures
            o.id == id,
            o.position == position,
            o.scale == scale,
            o.z_order == DEFAULT_Z,
            o.image_size is None,
            o.bounding_box is None,
            o.collider is None,
            o.grabbable == grabbable,
            o.has_body == has_body,
            o.wf(),
            o.bbox_fresh(),
    {
        TrackedObject {
            id,
            position,
            scale,
            z_order: DEFAULT_Z,
            image_size: None,
            bounding_box: None,
            collider: None,
            grabbable,
            has_body,
        }
    }

    /// Recompute the bounding box from the current transform and the scaled
    /// visual extent. An object whose image has not resolved is left alone.
    pub fn update_bounding_box(&mut self)
        requires
            old(self).wf(),
        ensures
            final(self).wf(),
            final(self).id == old(self).id,
            final(self).position == old(self).position,
            final(self).scale == old(self).scale,
            final(self).z_order == old(self).z_order,
            final(self).image_size == old(self).image_size,
            final(self).collider == old(self).collider,
            final(self).grabbable == old(self).grabbable,
            final(self).has_body == old(self).has_body,
            old(self).image_size is None ==> *final(self) == *old(self),
            old(self).image_size is Some ==> final(self).bounding_box == Some(
                BoundingBox(old(self).spec_bbox()),
            ),
            old(self).image_size is Some ==> final(self).bbox_fresh(),
    {
        match self.image_size {
            None => {},
            Some(sz) => {
                let size = vec2_mul(sz.0, self.scale);
                self.bounding_box = Some(BoundingBox(rect_from_center_size(self.position, size)));
            },
        }
    }

    /// Capture the visual extent the first time the image resolves, derive
    /// the bounding box from it, and, for an object with a rigid body, size
    /// a matching collision rectangle. A second resolution never overwrites
    /// the captured extent; an unresolved image leaves the object untouched,
    /// to be retried next tick.
    pub fn add_image_size(&mut self, resolved: Option<Vec2I>)
        requires
            old(self).wf(),
            resolved matches Some(sz) ==> vec_in_range(sz) && vec_nonneg(sz),
        ensures
            final(self).wf(),
            old(self).image_size is Some ==> *final(self) == *old(self),
            resolved is None ==> *final(self) == *old(self),
            resolved matches Some(sz) ==> old(self).image_size is None ==> {
                &&& final(self).image_size == Some(ImageSize(sz))
                &&& final(self).bounding_box == Some(BoundingBox(final(self).spec_bbox()))
                &&& final(self).collider == (if old(self).has_body {
                    Some(sz)
                } else {
                    old(self).collider
                })
                &&& final(self).id == old(self).id
                &&& final(self).position == old(self).position
                &&& final(self).scale == old(self).scale
                &&& final(self).z_order == old(self).z_order
                &&& final(self).grabbable == old(self).grabbable
                &&& final(self).has_body == old(self).has_body
                &&& final(self).bbox_fresh()
            },
    {
        if self.image_size.is_none() {
            match resolved {
                None => {},
                Some(sz) => {
                    self.image_size = Some(ImageSize(sz));
                    let size = vec2_mul(sz, self.scale);
                    self.bounding_box = Some(
                        BoundingBox(rect_from_center_size(self.position, size)),
                    );
                    if self.has_body {
                        self.collider = Some(sz);
                    }
                },
            }
        }
    }

    /// Move and rescale the object and recompute its bounding box in the
    /// same step, so the box is never stale across a hit-test.
    pub fn set_transform(&mut self, position: Vec2I, scale: Vec2I)
        requires
            old(self).wf(),
            vec_in_range(position),
            vec_in_range(scale),
            vec_nonneg(scale),
        ensures
            final(self).wf(),
            final(self).id == old(self).id,
            final(self).position == position,
            final(self).scale == scale,
            final(self).z_order == old(self).z_order,
            final(self).image_size == old(self).image_size,
            final(self).collider == old(self).collider,
            final(self).grabbable == old(self).grabbable,
            final(self).has_body == old(self).has_body,
            old(self).image_size is None ==> final(self).bounding_box == old(self).bounding_box,
            final(self).image_size is Some ==> final(self).bounding_box == Some(
                BoundingBox(final(self).spec_bbox()),
            ),
            final(self).bbox_fresh() || (old(self).image_size is None && !old(self).bbox_fresh()),
    {
        self.position = position;
        self.scale = scale;
        self.update_bounding_box();
    }
}

/// A grab point hits an object when the object is grabbable, its bounding
/// box is known, and the point lies inside that box.
pub open spec fn spec_object_hit(o: TrackedObject, p: Vec2I) -> bool {
    o.grabbable && match o.bounding_box {
        Some(b) => spec_rect_contains(b.0, p),
        None => false,
    }
}

/// Whether `o.wf()` holds, decided at run time, for callers outside the
/// verified world.
pub fn object_wf_check(o: &TrackedObject) -> (b: bool)
    ensures
        b == o.wf(),
{
    crate::geometry::vec2_in_range(o.position) && crate::geometry::vec2_in_range(o.scale)
        && crate::geometry::vec2_nonneg(o.scale) && match o.image_size {
        Some(sz) => crate::geometry::vec2_in_range(sz.0) && crate::geometry::vec2_nonneg(sz.0),
        None => true,
    }
}

} // verus!
