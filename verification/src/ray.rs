//! A ray: origin, direction (not necessarily unit length) and the shutter
//! time at which it was cast.

use vstd::prelude::*;

use crate::fixed::Fixed;
use crate::vec3::{v3, vadd, vscale, Vec3};

verus! {

pub type Point3 = Vec3;

#[derive(Clone, Copy, PartialEq, Eq, Structural, Debug)]
pub struct Ray {
    pub orig: Point3,
    pub dir: Vec3,
    pub time: Fixed,
}

/// The point reached after travelling `t` along the ray.
pub open spec fn ray_at(orig: (int, int, int), dir: (int, int, int), t: int) -> (int, int, int) {
    vadd(orig, vscale(t, dir))
}

impl Ray {
    pub fn new(origin: &Point3, direction: &Vec3, time: Fixed) -> (r: Ray)
        ensures
            r.orig == *origin,
            r.dir == *direction,
            r.time == time,
    {
        Ray { orig: origin.copy(), dir: direction.copy(), time }
    }

    pub fn origin(&self) -> (r: &Point3)
        ensures
            *r == self.orig,
    {
        &self.orig
    }

    pub fn direction(&self) -> (r: &Vec3)
        ensures
            *r == self.dir,
    {
        &self.dir
    }

    pub fn at(&self, t: Fixed) -> (r: Point3)
        ensures
            v3(r) == ray_at(v3(self.orig), v3(self.dir), t.raw as int),
    {
        self.orig.plus(&self.dir.scale(t))
    }

    pub fn time(&self) -> (r: Fixed)
        ensures
            r == self.time,
    {
        self.time
    }
}

} // verus!
