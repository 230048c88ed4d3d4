//! Axis-aligned bounding boxes and the broad-phase overlap test.

use vstd::prelude::*;
use crate::vec2::Vector2D;

verus! {

/// An axis-aligned bounding box, held as its lower-left and upper-right
/// corners. Derived from a body's shape, never independently mutated.
#[derive(Clone, Copy, PartialEq, Eq, Structural, Debug)]
pub struct AABB {
    pub min: Vector2D,
    pub max: Vector2D,
}

/// Builds a box from its corners.
pub fn init_aabb(min_s: Vector2D, max_s: Vector2D) -> (r: AABB)
    ensures
        r == (AABB { min: min_s, max: max_s }),
{
    AABB { min: min_s, max: max_s }
}

/// Builds a box from the four corner coordinates.
pub fn init_hard_aabb(min_x: i64, min_y: i64, max_x: i64, max_y: i64) -> (r: AABB)
    ensures
        r == (AABB { min: Vector2D { x: min_x, y: min_y }, max: Vector2D { x: max_x, y: max_y } }),
{
    AABB { min: Vector2D { x: min_x, y: min_y }, max: Vector2D { x: max_x, y: max_y } }
}

/// Overlap of two boxes, in specifications: they overlap unless they are
/// separated (or merely touching) along one of the two axes.
pub open spec fn spec_intersect_aabbs(a: AABB, b: AABB) -> bool {
    !(a.max.x <= b.min.x || b.max.x <= a.min.x || a.max.y <= b.min.y || b.max.y <= a.min.y)
}

/// The broad-phase filter: whether two boxes overlap with positive area.
pub fn intersect_aabbs(a: AABB, b: AABB) -> (r: bool)
    ensures
        r == spec_intersect_aabbs(a, b),
{
    if a.max.x <= b.min.x || b.max.x <= a.min.x || a.max.y <= b.min.y || b.max.y <= a.min.y {
        return false;
    }
    true
}

/// Law: the overlap test is symmetric in its two boxes.
pub proof fn lemma_intersect_aabbs_symmetric(a: AABB, b: AABB)
    ensures
        spec_intersect_aabbs(a, b) == spec_intersect_aabbs(b, a),
{
}

} // verus!
