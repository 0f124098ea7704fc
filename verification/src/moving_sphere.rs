//! A sphere whose center interpolates linearly between two keyframes over
//! the shutter interval; intersection is the static sphere test against the
//! time-dependent center.

use vstd::prelude::*;

use crate::fixed::{fx_div, fx_sub, Fixed};
use crate::hittable::HitRecord;
use crate::ray::Ray;
use crate::sphere::{sphere_hit, Sphere};
use crate::vec3::{v3, vadd, vscale, vsub, Vec3};

verus! {

pub type Point3 = Vec3;

/// The interpolated center at a time:
/// `center0 + ((time - time0) / (time1 - time0)) * (center1 - center0)`.
pub open spec fn ms_center(
    c0: (int, int, int),
    c1: (int, int, int),
    time0: int,
    time1: int,
    time: int,
) -> (int, int, int) {
    vadd(c0, vscale(fx_div(fx_sub(time, time0), fx_sub(time1, time0)), vsub(c1, c0)))
}

#[derive(Clone, Copy, PartialEq, Eq, Structural, Debug)]
pub struct MovingSphere {
    pub center0: Point3,
    pub center1: Point3,
    pub time0: Fixed,
    pub time1: Fixed,
    pub radius: Fixed,
    pub mat: usize,
}

impl MovingSphere {
    pub fn new(c0: Point3, c1: Point3, t0: Fixed, t1: Fixed, r: Fixed, m: usize) -> (res:
        MovingSphere)
        ensures
            res == (MovingSphere {
                center0: c0,
                center1: c1,
                time0: t0,
                time1: t1,
                radius: r,
                mat: m,
            }),
    {
        MovingSphere { center0: c0, center1: c1, time0: t0, time1: t1, radius: r, mat: m }
    }

    /// The center at a given shutter time.
    pub fn center(&self, time: Fixed) -> (r: Point3)
        ensures
            v3(r) == ms_center(
                v3(self.center0),
                v3(self.center1),
                self.time0.raw as int,
                self.time1.raw as int,
                time.raw as int,
            ),
    {
        let frac = time.minus(self.time0).div_by(self.time1.minus(self.time0));
        self.center0.plus(&self.center1.minus(&self.center0).scale(frac))
    }

    pub fn radius(&self) -> (r: Fixed)
        ensures
            r == self.radius,
    {
        self.radius
    }

    /// Intersection against the sphere at the ray's time.
    pub fn hit(&self, r: &Ray, t_min: Fixed, t_max: Fixed) -> (res: Option<HitRecord>)
        ensures
            res == sphere_hit(
                ms_center(
                    v3(self.center0),
                    v3(self.center1),
                    self.time0.raw as int,
                    self.time1.raw as int,
                    r.time.raw as int,
                ),
                self.radius.raw as int,
                self.mat as int,
                v3(r.orig),
                v3(r.dir),
                r.time.raw as int,
                t_min.raw as int,
                t_max.raw as int,
            ),
            res matches Some(h) ==> t_min.raw <= h.t.raw <= t_max.raw,
    {
        let c = self.center(r.time());
        Sphere::new(c, self.radius, self.mat).hit(r, t_min, t_max)
    }
}

} // verus!
