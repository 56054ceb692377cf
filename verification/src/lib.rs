//! Verified core of a cursor-driven "grab and hold" mechanic for a 2D
//! simulation: a hand steered toward the cursor that can pick up, carry and
//! release objects.
//!
//! The crate models the three per-tick components and proves their contracts:
//!
//! * [`object`] — tracks an axis-aligned bounding box per object, derived
//!   from its visual extent and current transform;
//! * [`hand`] — owns the hand's position, velocity and grab state, and
//!   steers the hand toward a target point;
//! * [`engine`] — the grab/drop state machine, its hit-test against the
//!   tracked bounding boxes, and the fixed joint it creates and destroys in
//!   lock-step with the state.
//!
//! Windowing, rendering, input devices and rigid-body integration are
//! collaborators outside this crate; a driver feeds the core plain values
//! (cursor position, input edges, resolved image sizes) once per tick.

pub mod engine;
pub mod geometry;
pub mod hand;
pub mod object;
