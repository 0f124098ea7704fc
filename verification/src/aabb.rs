//! Axis-aligned bounding boxes: the slab intersection test and the box
//! union, together with the interval-narrowing laws the slab test obeys.

use vstd::prelude::*;

use crate::fixed::{fx_div, fx_max, fx_min, fx_mul, fx_sub, Fixed, SCALE};
use crate::ray::Ray;
use crate::vec3::{v3, Vec3};

verus! {

pub type Point3 = Vec3;

#[derive(Clone, Copy, PartialEq, Eq, Structural, Debug)]
pub struct AABB {
    pub minimum: Point3,
    pub maximum: Point3,
}

/// The entry/exit parameters of one axis slab, ordered so that the entry
/// comes first.  Divisions by a zero direction component saturate to the
/// signed "infinities", which the interval arithmetic below tolerates.
pub open spec fn slab(min_a: int, max_a: int, o: int, d: int) -> (int, int) {
    let inv_d = fx_div(SCALE as int, d);
    let t0 = fx_mul(fx_sub(min_a, o), inv_d);
    let t1 = fx_mul(fx_sub(max_a, o), inv_d);
    if inv_d < 0 {
        (t1, t0)
    } else {
        (t0, t1)
    }
}

/// Narrow a running parameter interval by one slab.
pub open spec fn narrow(iv: (int, int), s: (int, int)) -> (int, int) {
    (fx_max(s.0, iv.0), fx_min(s.1, iv.1))
}

/// The slab test: narrow `[t_min, t_max]` by each axis interval in turn and
/// ask whether the result is still a non-empty (open) interval.
pub open spec fn narrow3(
    a: (int, int),
    b: (int, int),
    c: (int, int),
    t_min: int,
    t_max: int,
) -> bool {
    let i1 = narrow((t_min, t_max), a);
    let i2 = narrow(i1, b);
    let i3 = narrow(i2, c);
    i3.1 > i3.0
}

/// Whether the ray with origin `o` and direction `d` meets the box within
/// the open parameter interval.
pub open spec fn aabb_hit(
    bmin: (int, int, int),
    bmax: (int, int, int),
    o: (int, int, int),
    d: (int, int, int),
    t_min: int,
    t_max: int,
) -> bool {
    narrow3(
        slab(bmin.0, bmax.0, o.0, d.0),
        slab(bmin.1, bmax.1, o.1, d.1),
        slab(bmin.2, bmax.2, o.2, d.2),
        t_min,
        t_max,
    )
}

/// Componentwise containment of one box inside another.
pub open spec fn box_inside(
    inner_min: (int, int, int),
    inner_max: (int, int, int),
    outer_min: (int, int, int),
    outer_max: (int, int, int),
) -> bool {
    outer_min.0 <= inner_min.0 && outer_min.1 <= inner_min.1 && outer_min.2 <= inner_min.2
        && inner_max.0 <= outer_max.0 && inner_max.1 <= outer_max.1 && inner_max.2 <= outer_max.2
}

/// The componentwise union of two boxes.
pub open spec fn joint_min(a: (int, int, int), b: (int, int, int)) -> (int, int, int) {
    (fx_min(a.0, b.0), fx_min(a.1, b.1), fx_min(a.2, b.2))
}

pub open spec fn joint_max(a: (int, int, int), b: (int, int, int)) -> (int, int, int) {
    (fx_max(a.0, b.0), fx_max(a.1, b.1), fx_max(a.2, b.2))
}

/// Interval narrowing is insensitive to the order in which the axis slabs
/// are applied: swapping any two neighbouring axes leaves the slab test
/// unchanged, so every ordering of the three axes agrees.
pub proof fn lemma_narrow3_reorder(
    a: (int, int),
    b: (int, int),
    c: (int, int),
    t_min: int,
    t_max: int,
)
    ensures
        narrow3(a, b, c, t_min, t_max) == narrow3(b, a, c, t_min, t_max),
        narrow3(a, b, c, t_min, t_max) == narrow3(a, c, b, t_min, t_max),
        narrow3(a, b, c, t_min, t_max) == narrow3(c, b, a, t_min, t_max),
{
}

/// A ray that misses the box on any single axis misses the box overall:
/// if one axis slab does not overlap the queried interval, the whole test
/// reports no hit.
pub proof fn lemma_narrow3_miss_axis(
    a: (int, int),
    b: (int, int),
    c: (int, int),
    t_min: int,
    t_max: int,
)
    ensures
        fx_min(a.1, t_max) <= fx_max(a.0, t_min) ==> !narrow3(a, b, c, t_min, t_max),
        fx_min(b.1, t_max) <= fx_max(b.0, t_min) ==> !narrow3(a, b, c, t_min, t_max),
        fx_min(c.1, t_max) <= fx_max(c.0, t_min) ==> !narrow3(a, b, c, t_min, t_max),
{
}

/// The union of two boxes contains both, and is the tightest box that does:
/// any box containing both inputs contains their union.
pub proof fn lemma_joint_box_bounds(
    a_min: (int, int, int),
    a_max: (int, int, int),
    b_min: (int, int, int),
    b_max: (int, int, int),
    c_min: (int, int, int),
    c_max: (int, int, int),
)
    requires
        box_inside(a_min, a_max, c_min, c_max),
        box_inside(b_min, b_max, c_min, c_max),
    ensures
        box_inside(a_min, a_max, joint_min(a_min, b_min), joint_max(a_max, b_max)),
        box_inside(b_min, b_max, joint_min(a_min, b_min), joint_max(a_max, b_max)),
        box_inside(joint_min(a_min, b_min), joint_max(a_max, b_max), c_min, c_max),
{
}

fn hit_axis(min_a: Fixed, max_a: Fixed, o: Fixed, d: Fixed, lo: Fixed, hi: Fixed) -> (r: (
    Fixed,
    Fixed,
))
    ensures
        (r.0.raw as int, r.1.raw as int) == narrow(
            (lo.raw as int, hi.raw as int),
            slab(min_a.raw as int, max_a.raw as int, o.raw as int, d.raw as int),
        ),
{
    let inv_d = d.recip();
    let mut t0 = min_a.minus(o).times(inv_d);
    let mut t1 = max_a.minus(o).times(inv_d);
    if inv_d.is_neg() {
        let tmp = t0;
        t0 = t1;
        t1 = tmp;
    }
    (t0.max_of(lo), t1.min_of(hi))
}

impl AABB {
    pub fn new(minimum: Point3, maximum: Point3) -> (r: AABB)
        ensures
            r == (AABB { minimum, maximum }),
    {
        AABB { minimum, maximum }
    }

    pub fn min(&self) -> (r: &Point3)
        ensures
            *r == self.minimum,
    {
        &self.minimum
    }

    pub fn max(&self) -> (r: &Point3)
        ensures
            *r == self.maximum,
    {
        &self.maximum
    }

    pub fn copy(&self) -> (r: AABB)
        ensures
            r == *self,
    {
        AABB { minimum: self.minimum.copy(), maximum: self.maximum.copy() }
    }

    /// Slab intersection: narrow the parameter interval axis by axis,
    /// giving up as soon as it becomes empty.
    pub fn hit(&self, r: &Ray, t_min: Fixed, t_max: Fixed) -> (res: bool)
        ensures
            res == aabb_hit(
                v3(self.minimum),
                v3(self.maximum),
                v3(r.orig),
                v3(r.dir),
                t_min.raw as int,
                t_max.raw as int,
            ),
    {
        let i1 = hit_axis(self.minimum.x, self.maximum.x, r.orig.x, r.dir.x, t_min, t_max);
        if !i1.1.gt(i1.0) {
            return false;
        }
        let i2 = hit_axis(self.minimum.y, self.maximum.y, r.orig.y, r.dir.y, i1.0, i1.1);
        if !i2.1.gt(i2.0) {
            return false;
        }
        let i3 = hit_axis(self.minimum.z, self.maximum.z, r.orig.z, r.dir.z, i2.0, i2.1);
        i3.1.gt(i3.0)
    }

    /// The componentwise union of two boxes.
    pub fn joint_box(box0: &AABB, box1: &AABB) -> (r: AABB)
        ensures
            v3(r.minimum) == joint_min(v3(box0.minimum), v3(box1.minimum)),
            v3(r.maximum) == joint_max(v3(box0.maximum), v3(box1.maximum)),
    {
        let minimum = Vec3 {
            x: box0.minimum.x.min_of(box1.minimum.x),
            y: box0.minimum.y.min_of(box1.minimum.y),
            z: box0.minimum.z.min_of(box1.minimum.z),
        };
        let maximum = Vec3 {
            x: box0.maximum.x.max_of(box1.maximum.x),
            y: box0.maximum.y.max_of(box1.maximum.y),
            z: box0.maximum.z.max_of(box1.maximum.z),
        };
        AABB { minimum, maximum }
    }
}

} // verus!
