//! Axis-aligned bounding boxes: overlap test, closest-point clamp, and the
//! classification of which face of a stationary box a moving box struck.

use vstd::prelude::*;

verus! {

/// Geometry functions accept coordinates up to this magnitude, so that all
/// intermediate sums and differences stay well inside `i64`.
pub const COORD_MAX: i64 = 1_000_000_000_000_000;

/// A two-dimensional vector of raw fixed-point values.
#[derive(Clone, Copy, Debug, PartialEq, Eq, Structural)]
pub struct Vec2 {
    pub x: i64,
    pub y: i64,
}

impl Vec2 {
    pub open spec fn bounded(self, b: int) -> bool {
        -b <= self.x <= b && -b <= self.y <= b
    }

    pub fn new(x: i64, y: i64) -> (v: Vec2)
        ensures
            v == (Vec2 { x, y }),
    {
        Vec2 { x, y }
    }
}

/// An axis-aligned box given by its center and half-extents.
#[derive(Clone, Copy, Debug, PartialEq, Eq, Structural)]
pub struct Aabb {
    pub center: Vec2,
    pub half: Vec2,
}

impl Aabb {
    /// Non-negative half-extents, coordinates small enough for the
    /// geometry functions.
    pub open spec fn wf(self) -> bool {
        &&& 0 <= self.half.x <= COORD_MAX
        &&& 0 <= self.half.y <= COORD_MAX
        &&& self.center.bounded(COORD_MAX as int)
    }

    /// The closed interval `[center - half, center + half]` contains `p`
    /// on both axes.
    pub open spec fn spec_contains(self, p: Vec2) -> bool {
        &&& self.center.x - self.half.x <= p.x <= self.center.x + self.half.x
        &&& self.center.y - self.half.y <= p.y <= self.center.y + self.half.y
    }

    pub fn new(center: Vec2, half: Vec2) -> (b: Aabb)
        ensures
            b == (Aabb { center, half }),
    {
        Aabb { center, half }
    }
}

/// The two boxes overlap: their closed per-axis intervals intersect on
/// both axes, so boxes that merely touch along an edge still intersect.
pub open spec fn spec_intersects(a: Aabb, b: Aabb) -> bool {
    &&& a.center.x - a.half.x <= b.center.x + b.half.x
    &&& b.center.x - b.half.x <= a.center.x + a.half.x
    &&& a.center.y - a.half.y <= b.center.y + b.half.y
    &&& b.center.y - b.half.y <= a.center.y + a.half.y
}

/// Intersection does not depend on the order of the two boxes.
pub proof fn lemma_intersects_symmetric(a: Aabb, b: Aabb)
    ensures
        spec_intersects(a, b) == spec_intersects(b, a),
{
}

pub fn intersects(a: &Aabb, b: &Aabb) -> (r: bool)
    requires
        a.wf(),
        b.wf(),
    ensures
        r == spec_intersects(*a, *b),
{
    a.center.x - a.half.x <= b.center.x + b.half.x && b.center.x - b.half.x <= a.center.x + a.half.x
        && a.center.y - a.half.y <= b.center.y + b.half.y && b.center.y - b.half.y <= a.center.y
        + a.half.y
}

/// `v` clamped into the closed interval `[lo, hi]`.
pub open spec fn spec_clamp(v: int, lo: int, hi: int) -> int {
    if v < lo {
        lo
    } else if v > hi {
        hi
    } else {
        v
    }
}

/// `p` clamped componentwise into the box's closed intervals.
pub open spec fn spec_closest_point(b: Aabb, p: Vec2) -> Vec2 {
    Vec2 {
        x: spec_clamp(p.x as int, b.center.x - b.half.x, b.center.x + b.half.x) as i64,
        y: spec_clamp(p.y as int, b.center.y - b.half.y, b.center.y + b.half.y) as i64,
    }
}

/// The closest point lies within the box, and it is `p` itself exactly
/// when `p` already lies within the box.
pub proof fn lemma_closest_point_containment(b: Aabb, p: Vec2)
    requires
        b.wf(),
        p.bounded(COORD_MAX as int),
    ensures
        b.spec_contains(spec_closest_point(b, p)),
        spec_closest_point(b, p) == p <==> b.spec_contains(p),
{
}

pub fn closest_point(b: &Aabb, p: &Vec2) -> (r: Vec2)
    requires
        b.wf(),
        p.bounded(COORD_MAX as int),
    ensures
        r == spec_closest_point(*b, *p),
        b.spec_contains(r),
        r == *p <==> b.spec_contains(*p),
{
    proof {
        lemma_closest_point_containment(*b, *p);
    }
    let x = clamp(p.x, b.center.x - b.half.x, b.center.x + b.half.x);
    let y = clamp(p.y, b.center.y - b.half.y, b.center.y + b.half.y);
    Vec2 { x, y }
}

fn clamp(v: i64, lo: i64, hi: i64) -> (r: i64)
    requires
        lo <= hi,
    ensures
        r == spec_clamp(v as int, lo as int, hi as int),
{
    if v < lo {
        lo
    } else if v > hi {
        hi
    } else {
        v
    }
}

/// Which pair of faces of a stationary box a moving box struck.
#[derive(Clone, Copy, Debug, PartialEq, Eq, Structural)]
pub enum Collision {
    LeftRight,
    TopBottom,
}

/// Face classification: `None` when the boxes do not intersect; otherwise
/// the offset from the stationary box's closest point to the moving box's
/// center decides the axis, horizontal only when its component is
/// strictly larger in magnitude.
pub open spec fn spec_collision_side(moving: Aabb, stationary: Aabb) -> Option<Collision> {
    if !spec_intersects(moving, stationary) {
        None
    } else {
        let closest = spec_closest_point(stationary, moving.center);
        let off_x = moving.center.x - closest.x;
        let off_y = moving.center.y - closest.y;
        if vstd::math::abs(off_x) > vstd::math::abs(off_y) {
            Some(Collision::LeftRight)
        } else {
            Some(Collision::TopBottom)
        }
    }
}

/// For intersecting boxes the classification is determined by which
/// component of the center offset dominates; a tie counts as vertical.
pub proof fn lemma_collision_side_determined(moving: Aabb, stationary: Aabb)
    requires
        spec_intersects(moving, stationary),
    ensures
        ({
            let closest = spec_closest_point(stationary, moving.center);
            let off_x = moving.center.x - closest.x;
            let off_y = moving.center.y - closest.y;
            &&& vstd::math::abs(off_x) > vstd::math::abs(off_y) ==> spec_collision_side(
                moving,
                stationary,
            ) == Some(Collision::LeftRight)
            &&& vstd::math::abs(off_x) <= vstd::math::abs(off_y) ==> spec_collision_side(
                moving,
                stationary,
            ) == Some(Collision::TopBottom)
        }),
{
}

pub fn collision_side(moving: &Aabb, stationary: &Aabb) -> (r: Option<Collision>)
    requires
        moving.wf(),
        stationary.wf(),
    ensures
        r == spec_collision_side(*moving, *stationary),
        r is None <==> !spec_intersects(*moving, *stationary),
{
    if !intersects(moving, stationary) {
        return None;
    }
    let closest = closest_point(stationary, &moving.center);
    let off_x = moving.center.x - closest.x;
    let off_y = moving.center.y - closest.y;
    let abs_x = if off_x < 0 {
        -off_x
    } else {
        off_x
    };
    let abs_y = if off_y < 0 {
        -off_y
    } else {
        off_y
    };
    if abs_x > abs_y {
        Some(Collision::LeftRight)
    } else {
        Some(Collision::TopBottom)
    }
}

} // verus!
