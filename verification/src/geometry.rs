//! Plane geometry for the grab mechanic: integer world coordinates,
//! axis-aligned rectangles, and the center/size rectangle construction used
//! for every bounding box.

use vstd::prelude::*;

verus! {

/// Largest magnitude allowed for a world coordinate, an image extent or a
/// scale factor.
pub const COORD_LIMIT: i64 = 1_000_000;

/// Largest magnitude a scaled size (extent times scale) can reach.
pub const SIZE_LIMIT: i64 = 1_000_000_000_000;

/// A point or size in the 2D world, in integer world units.
#[derive(Clone, Copy, PartialEq, Eq, Debug)]
pub struct Vec2I {
    pub x: i64,
    pub y: i64,
}

/// An axis-aligned rectangle given by its two corners, `min` componentwise
/// below `max`.
#[derive(Clone, Copy, PartialEq, Eq, Debug)]
pub struct Rect {
    pub min: Vec2I,
    pub max: Vec2I,
}

pub open spec fn coord_in_range(c: i64) -> bool {
    -COORD_LIMIT <= c <= COORD_LIMIT
}

pub open spec fn vec_in_range(v: Vec2I) -> bool {
    coord_in_range(v.x) && coord_in_range(v.y)
}

pub open spec fn vec_nonneg(v: Vec2I) -> bool {
    v.x >= 0 && v.y >= 0
}

/// Componentwise product, as a mathematical value.
pub open spec fn spec_vec2_mul(a: Vec2I, b: Vec2I) -> Vec2I {
    Vec2I { x: (a.x * b.x) as i64, y: (a.y * b.y) as i64 }
}

/// The rectangle centered at `center` whose edge lengths are `size`: half
/// the size lies on each side of the center.
pub open spec fn spec_rect_from_center_size(center: Vec2I, size: Vec2I) -> Rect {
    Rect {
        min: Vec2I { x: (center.x - size.x / 2) as i64, y: (center.y - size.y / 2) as i64 },
        max: Vec2I { x: (center.x + size.x / 2) as i64, y: (center.y + size.y / 2) as i64 },
    }
}

/// A point lies in a rectangle when it is within both closed intervals.
pub open spec fn spec_rect_contains(r: Rect, p: Vec2I) -> bool {
    r.min.x <= p.x <= r.max.x && r.min.y <= p.y <= r.max.y
}

pub fn vec2_in_range(v: Vec2I) -> (b: bool)
    ensures
        b == vec_in_range(v),
{
    -COORD_LIMIT <= v.x && v.x <= COORD_LIMIT && -COORD_LIMIT <= v.y && v.y <= COORD_LIMIT
}

pub fn vec2_nonneg(v: Vec2I) -> (b: bool)
    ensures
        b == vec_nonneg(v),
{
    v.x >= 0 && v.y >= 0
}

pub fn vec2_mul(a: Vec2I, b: Vec2I) -> (r: Vec2I)
    requires
        vec_in_range(a),
        vec_in_range(b),
    ensures
        r == spec_vec2_mul(a, b),
        r.x == a.x * b.x,
        r.y == a.y * b.y,
        -SIZE_LIMIT <= r.x <= SIZE_LIMIT,
        -SIZE_LIMIT <= r.y <= SIZE_LIMIT,
        vec_nonneg(a) && vec_nonneg(b) ==> vec_nonneg(r),
{
    proof {
        assert(-1_000_000_000_000 <= a.x * b.x <= 1_000_000_000_000) by (nonlinear_arith)
            requires
                -1_000_000 <= a.x <= 1_000_000,
                -1_000_000 <= b.x <= 1_000_000,
        ;
        assert(-1_000_000_000_000 <= a.y * b.y <= 1_000_000_000_000) by (nonlinear_arith)
            requires
                -1_000_000 <= a.y <= 1_000_000,
                -1_000_000 <= b.y <= 1_000_000,
        ;
        assert(0 <= a.x && 0 <= b.x ==> 0 <= a.x * b.x) by (nonlinear_arith);
        assert(0 <= a.y && 0 <= b.y ==> 0 <= a.y * b.y) by (nonlinear_arith);
    }
    Vec2I { x: a.x * b.x, y: a.y * b.y }
}

pub fn rect_from_center_size(center: Vec2I, size: Vec2I) -> (r: Rect)
    requires
        vec_in_range(center),
        0 <= size.x <= SIZE_LIMIT,
        0 <= size.y <= SIZE_LIMIT,
    ensures
        r == spec_rect_from_center_size(center, size),
{
    Rect {
        min: Vec2I { x: center.x - size.x / 2, y: center.y - size.y / 2 },
        max: Vec2I { x: center.x + size.x / 2, y: center.y + size.y / 2 },
    }
}

pub fn rect_contains(r: &Rect, p: Vec2I) -> (b: bool)
    ensures
        b == spec_rect_contains(*r, p),
{
    r.min.x <= p.x && p.x <= r.max.x && r.min.y <= p.y && p.y <= r.max.y
}

} // verus!
