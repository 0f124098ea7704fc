//! Axis-aligned rectangles in the three coordinate planes.  A ray parallel
//! to the plane never hits (the degenerate division is guarded), otherwise
//! the crossing parameter and the in-plane extent decide.

use vstd::prelude::*;

use crate::fixed::{fx_add, fx_div, fx_mul, fx_sub, Fixed, SCALE};
use crate::hittable::{rec_from, HitRecord};
use crate::ray::{ray_at, Ray};
use crate::vec3::Vec3;

verus! {

/// Hit of the rectangle spanning [x0,x1]x[y0,y1] in the plane z = k.
pub open spec fn xy_rect_hit(
    x0: int,
    x1: int,
    y0: int,
    y1: int,
    k: int,
    mat: int,
    orig: (int, int, int),
    dir: (int, int, int),
    t_min: int,
    t_max: int,
) -> Option<HitRecord> {
    if dir.2 == 0 {
        None
    } else {
        let t = fx_div(fx_sub(k, orig.2), dir.2);
        if t < t_min || t > t_max {
            None
        } else {
            let x = fx_add(orig.0, fx_mul(t, dir.0));
            let y = fx_add(orig.1, fx_mul(t, dir.1));
            if x < x0 || x > x1 || y < y0 || y > y1 {
                None
            } else {
                let u = fx_div(fx_sub(x, x0), fx_sub(x1, x0));
                let v = fx_div(fx_sub(y, y0), fx_sub(y1, y0));
                Some(rec_from(dir, (0, 0, SCALE as int), mat, t, u, v, ray_at(orig, dir, t)))
            }
        }
    }
}

/// Hit of the rectangle spanning [y0,y1]x[z0,z1] in the plane x = k.
pub open spec fn yz_rect_hit(
    y0: int,
    y1: int,
    z0: int,
    z1: int,
    k: int,
    mat: int,
    orig: (int, int, int),
    dir: (int, int, int),
    t_min: int,
    t_max: int,
) -> Option<HitRecord> {
    if dir.0 == 0 {
        None
    } else {
        let t = fx_div(fx_sub(k, orig.0), dir.0);
        if t < t_min || t > t_max {
            None
        } else {
            let y = fx_add(orig.1, fx_mul(t, dir.1));
            let z = fx_add(orig.2, fx_mul(t, dir.2));
            if z < z0 || z > z1 || y < y0 || y > y1 {
                None
            } else {
                let u = fx_div(fx_sub(y, y0), fx_sub(y1, y0));
                let v = fx_div(fx_sub(z, z0), fx_sub(z1, z0));
                Some(rec_from(dir, (SCALE as int, 0, 0), mat, t, u, v, ray_at(orig, dir, t)))
            }
        }
    }
}

/// Hit of the rectangle spanning [z0,z1]x[x0,x1] in the plane y = k.
pub open spec fn zx_rect_hit(
    z0: int,
    z1: int,
    x0: int,
    x1: int,
    k: int,
    mat: int,
    orig: (int, int, int),
    dir: (int, int, int),
    t_min: int,
    t_max: int,
) -> Option<HitRecord> {
    if dir.1 == 0 {
        None
    } else {
        let t = fx_div(fx_sub(k, orig.1), dir.1);
        if t < t_min || t > t_max {
            None
        } else {
            let x = fx_add(orig.0, fx_mul(t, dir.0));
            let z = fx_add(orig.2, fx_mul(t, dir.2));
            if x < x0 || x > x1 || z < z0 || z > z1 {
                None
            } else {
                let u = fx_div(fx_sub(x, x0), fx_sub(x1, x0));
                let v = fx_div(fx_sub(z, z0), fx_sub(z1, z0));
                Some(rec_from(dir, (0, SCALE as int, 0), mat, t, u, v, ray_at(orig, dir, t)))
            }
        }
    }
}

#[derive(Clone, Copy, PartialEq, Eq, Structural, Debug)]
pub struct XyRect {
    pub x0: Fixed,
    pub x1: Fixed,
    pub y0: Fixed,
    pub y1: Fixed,
    pub k: Fixed,
    pub mat: usize,
}

impl XyRect {
    pub fn new(x0: Fixed, x1: Fixed, y0: Fixed, y1: Fixed, k: Fixed, mat: usize) -> (r: XyRect)
        ensures
            r == (XyRect { x0, x1, y0, y1, k, mat }),
    {
        XyRect { x0, x1, y0, y1, k, mat }
    }

    pub fn hit(&self, r: &Ray, t_min: Fixed, t_max: Fixed) -> (res: Option<HitRecord>)
        ensures
            res == xy_rect_hit(
                self.x0.raw as int,
                self.x1.raw as int,
                self.y0.raw as int,
                self.y1.raw as int,
                self.k.raw as int,
                self.mat as int,
                crate::vec3::v3(r.orig),
                crate::vec3::v3(r.dir),
                t_min.raw as int,
                t_max.raw as int,
            ),
            res matches Some(h) ==> t_min.raw <= h.t.raw <= t_max.raw,
    {
        if r.dir.z.raw == 0 {
            return None;
        }
        let t = self.k.minus(r.orig.z).div_by(r.dir.z);
        if t.lt(t_min) || t.gt(t_max) {
            return None;
        }
        let x = r.orig.x.plus(t.times(r.dir.x));
        let y = r.orig.y.plus(t.times(r.dir.y));
        if x.lt(self.x0) || x.gt(self.x1) || y.lt(self.y0) || y.gt(self.y1) {
            return None;
        }
        let u = x.minus(self.x0).div_by(self.x1.minus(self.x0));
        let v = y.minus(self.y0).div_by(self.y1.minus(self.y0));
        Some(HitRecord::new(r, Vec3::fwd(), self.mat, t, u, v))
    }
}

#[derive(Clone, Copy, PartialEq, Eq, Structural, Debug)]
pub struct YzRect {
    pub y0: Fixed,
    pub y1: Fixed,
    pub z0: Fixed,
    pub z1: Fixed,
    pub k: Fixed,
    pub mat: usize,
}

impl YzRect {
    pub fn new(y0: Fixed, y1: Fixed, z0: Fixed, z1: Fixed, k: Fixed, mat: usize) -> (r: YzRect)
        ensures
            r == (YzRect { y0, y1, z0, z1, k, mat }),
    {
        YzRect { y0, y1, z0, z1, k, mat }
    }

    pub fn hit(&self, r: &Ray, t_min: Fixed, t_max: Fixed) -> (res: Option<HitRecord>)
        ensures
            res == yz_rect_hit(
                self.y0.raw as int,
                self.y1.raw as int,
                self.z0.raw as int,
                self.z1.raw as int,
                self.k.raw as int,
                self.mat as int,
                crate::vec3::v3(r.orig),
                crate::vec3::v3(r.dir),
                t_min.raw as int,
                t_max.raw as int,
            ),
            res matches Some(h) ==> t_min.raw <= h.t.raw <= t_max.raw,
    {
        if r.dir.x.raw == 0 {
            return None;
        }
        let t = self.k.minus(r.orig.x).div_by(r.dir.x);
        if t.lt(t_min) || t.gt(t_max) {
            return None;
        }
        let y = r.orig.y.plus(t.times(r.dir.y));
        let z = r.orig.z.plus(t.times(r.dir.z));
        if z.lt(self.z0) || z.gt(self.z1) || y.lt(self.y0) || y.gt(self.y1) {
            return None;
        }
        let u = y.minus(self.y0).div_by(self.y1.minus(self.y0));
        let v = z.minus(self.z0).div_by(self.z1.minus(self.z0));
        Some(HitRecord::new(r, Vec3::right(), self.mat, t, u, v))
    }
}

#[derive(Clone, Copy, PartialEq, Eq, Structural, Debug)]
pub struct ZxRect {
    pub z0: Fixed,
    pub z1: Fixed,
    pub x0: Fixed,
    pub x1: Fixed,
    pub k: Fixed,
    pub mat: usize,
}

impl ZxRect {
    pub fn new(z0: Fixed, z1: Fixed, x0: Fixed, x1: Fixed, k: Fixed, mat: usize) -> (r: ZxRect)
        ensures
            r == (ZxRect { z0, z1, x0, x1, k, mat }),
    {
        ZxRect { z0, z1, x0, x1, k, mat }
    }

    pub fn hit(&self, r: &Ray, t_min: Fixed, t_max: Fixed) -> (res: Option<HitRecord>)
        ensures
            res == zx_rect_hit(
                self.z0.raw as int,
                self.z1.raw as int,
                self.x0.raw as int,
                self.x1.raw as int,
                self.k.raw as int,
                self.mat as int,
                crate::vec3::v3(r.orig),
                crate::vec3::v3(r.dir),
                t_min.raw as int,
                t_max.raw as int,
            ),
            res matches Some(h) ==> t_min.raw <= h.t.raw <= t_max.raw,
    {
        if r.dir.y.raw == 0 {
            return None;
        }
        let t = self.k.minus(r.orig.y).div_by(r.dir.y);
        if t.lt(t_min) || t.gt(t_max) {
            return None;
        }
        let x = r.orig.x.plus(t.times(r.dir.x));
        let z = r.orig.z.plus(t.times(r.dir.z));
        if x.lt(self.x0) || x.gt(self.x1) || z.lt(self.z0) || z.gt(self.z1) {
            return None;
        }
        let u = x.minus(self.x0).div_by(self.x1.minus(self.x0));
        let v = z.minus(self.z0).div_by(self.z1.minus(self.z0));
        Some(HitRecord::new(r, Vec3::up(), self.mat, t, u, v))
    }
}

} // verus!
