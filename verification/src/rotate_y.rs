//! A decorator that rotates a child primitive about the vertical axis by a
//! fixed angle.  The world bounding box is computed once at construction
//! from the eight corners of the child's box at a fixed shutter interval.

use vstd::prelude::*;

use crate::aabb::AABB;
use crate::fixed::{fx_add, fx_max, fx_min, fx_mul, fx_sub, Fixed, SCALE};
use crate::hittable::Hittable;
use crate::trig::{sp_cos, sp_sin, RAD_PER_DEG_RAW};
use crate::vec3::{v3, vec3f, Vec3};

verus! {

pub type Point3 = Vec3;

/// One corner of a box, each axis choosing the minimum or maximum.
pub open spec fn box_corner(bmin: (int, int, int), bmax: (int, int, int), i: int, j: int, k: int) -> (
    int,
    int,
    int,
) {
    (
        if i == 1 {
            bmax.0
        } else {
            bmin.0
        },
        if j == 1 {
            bmax.1
        } else {
            bmin.1
        },
        if k == 1 {
            bmax.2
        } else {
            bmin.2
        },
    )
}

/// A corner carried through the rotation about the vertical axis.
pub open spec fn rot_corner(c: (int, int, int), sin_t: int, cos_t: int) -> (int, int, int) {
    (fx_add(fx_mul(cos_t, c.0), fx_mul(sin_t, c.2)), c.1, fx_add(
        fx_mul(fx_sub(0, sin_t), c.0),
        fx_mul(cos_t, c.2),
    ))
}

pub open spec fn tri_min(a: (int, int, int), b: (int, int, int)) -> (int, int, int) {
    (fx_min(a.0, b.0), fx_min(a.1, b.1), fx_min(a.2, b.2))
}

pub open spec fn tri_max(a: (int, int, int), b: (int, int, int)) -> (int, int, int) {
    (fx_max(a.0, b.0), fx_max(a.1, b.1), fx_max(a.2, b.2))
}

/// The axis-aligned box of the eight rotated corners of a box.
pub open spec fn rot_box(b: AABB, sin_t: int, cos_t: int) -> AABB {
    let c000 = rot_corner(box_corner(v3(b.minimum), v3(b.maximum), 0, 0, 0), sin_t, cos_t);
    let c001 = rot_corner(box_corner(v3(b.minimum), v3(b.maximum), 0, 0, 1), sin_t, cos_t);
    let c010 = rot_corner(box_corner(v3(b.minimum), v3(b.maximum), 0, 1, 0), sin_t, cos_t);
    let c011 = rot_corner(box_corner(v3(b.minimum), v3(b.maximum), 0, 1, 1), sin_t, cos_t);
    let c100 = rot_corner(box_corner(v3(b.minimum), v3(b.maximum), 1, 0, 0), sin_t, cos_t);
    let c101 = rot_corner(box_corner(v3(b.minimum), v3(b.maximum), 1, 0, 1), sin_t, cos_t);
    let c110 = rot_corner(box_corner(v3(b.minimum), v3(b.maximum), 1, 1, 0), sin_t, cos_t);
    let c111 = rot_corner(box_corner(v3(b.minimum), v3(b.maximum), 1, 1, 1), sin_t, cos_t);
    let mn = tri_min(
        tri_min(tri_min(c000, c001), tri_min(c010, c011)),
        tri_min(tri_min(c100, c101), tri_min(c110, c111)),
    );
    let mx = tri_max(
        tri_max(tri_max(c000, c001), tri_max(c010, c011)),
        tri_max(tri_max(c100, c101), tri_max(c110, c111)),
    );
    AABB { minimum: vec3f(mn), maximum: vec3f(mx) }
}

#[derive(Debug)]
pub struct RotateY {
    pub source: Box<Hittable>,
    pub sin_theta: Fixed,
    pub cos_theta: Fixed,
    pub box_opt: Option<AABB>,
}

fn rot_corner_exec(c: Vec3, sin_t: Fixed, cos_t: Fixed) -> (r: Vec3)
    ensures
        v3(r) == rot_corner(v3(c), sin_t.raw as int, cos_t.raw as int),
{
    Vec3 {
        x: cos_t.times(c.x).plus(sin_t.times(c.z)),
        y: c.y,
        z: Fixed::zero().minus(sin_t).times(c.x).plus(cos_t.times(c.z)),
    }
}

impl RotateY {
    /// Wrap a child in a rotation by `angle` degrees about the vertical
    /// axis; the cached world box rotates the child's box over the fixed
    /// interval [0, 1] (time dependence is deliberately ignored here).
    pub fn new(source: Box<Hittable>, angle: Fixed) -> (r: RotateY)
        ensures
            r.source == source,
            r.sin_theta.raw as int == sp_sin(fx_mul(angle.raw as int, RAD_PER_DEG_RAW as int)),
            r.cos_theta.raw as int == sp_cos(fx_mul(angle.raw as int, RAD_PER_DEG_RAW as int)),
            r.box_opt == match crate::hittable::spec_bbox(*source, 0, SCALE as int) {
                Some(b) => Some(rot_box(b, r.sin_theta.raw as int, r.cos_theta.raw as int)),
                None => None,
            },
    {
        let radians = angle.to_radians();
        let sc = radians.sincos();
        let sin_theta = sc.0;
        let cos_theta = sc.1;
        let src_box_opt = source.bounding_box(Fixed::zero(), Fixed::one());
        let box_opt = match src_box_opt {
            Some(src_box) => {
                let bmin = src_box.minimum;
                let bmax = src_box.maximum;
                let c000 = rot_corner_exec(Vec3 { x: bmin.x, y: bmin.y, z: bmin.z }, sin_theta, cos_theta);
                let c001 = rot_corner_exec(Vec3 { x: bmin.x, y: bmin.y, z: bmax.z }, sin_theta, cos_theta);
                let c010 = rot_corner_exec(Vec3 { x: bmin.x, y: bmax.y, z: bmin.z }, sin_theta, cos_theta);
                let c011 = rot_corner_exec(Vec3 { x: bmin.x, y: bmax.y, z: bmax.z }, sin_theta, cos_theta);
                let c100 = rot_corner_exec(Vec3 { x: bmax.x, y: bmin.y, z: bmin.z }, sin_theta, cos_theta);
                let c101 = rot_corner_exec(Vec3 { x: bmax.x, y: bmin.y, z: bmax.z }, sin_theta, cos_theta);
                let c110 = rot_corner_exec(Vec3 { x: bmax.x, y: bmax.y, z: bmin.z }, sin_theta, cos_theta);
                let c111 = rot_corner_exec(Vec3 { x: bmax.x, y: bmax.y, z: bmax.z }, sin_theta, cos_theta);
                let mn = c000.comp_min(&c001).comp_min(&c010.comp_min(&c011)).comp_min(
                    &c100.comp_min(&c101).comp_min(&c110.comp_min(&c111)),
                );
                let mx = c000.comp_max(&c001).comp_max(&c010.comp_max(&c011)).comp_max(
                    &c100.comp_max(&c101).comp_max(&c110.comp_max(&c111)),
                );
                Some(AABB::new(mn, mx))
            },
            None => None,
        };
        RotateY { source, sin_theta, cos_theta, box_opt }
    }
}

} // verus!
