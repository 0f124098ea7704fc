//! Spheres: analytic quadratic intersection, spherical texture
//! coordinates, and the center/radius data.

use vstd::prelude::*;

use crate::fixed::{fx_add, fx_div, fx_mul, fx_neg, fx_sqrt, fx_sub, Fixed};
use crate::hittable::{face_normal, rec_from, HitRecord};
use crate::ray::{ray_at, Ray};
use crate::trig::{sp_acos, sp_atan2, PI_RAW};
use crate::vec3::{v3, vdiv, vdot, vlen2, vsub, Vec3};

verus! {

pub type Point3 = Vec3;

/// 1/pi in raw Q30 units.
pub const FRAC_1_PI_RAW: i64 = 341782637;

/// Spherical texture coordinates of a point on the unit sphere:
/// `u` from the azimuth about the vertical axis, `v` from the polar angle.
#[verifier::opaque]
pub open spec fn sphere_uv(p: (int, int, int)) -> (int, int) {
    let theta = sp_acos(fx_neg(p.1));
    let phi = fx_add(sp_atan2(fx_neg(p.2), p.0), PI_RAW as int);
    (
        fx_mul(fx_mul(phi, FRAC_1_PI_RAW as int), 0x2000_0000),
        fx_mul(theta, FRAC_1_PI_RAW as int),
    )
}

/// The analytic sphere intersection: solve the quadratic
/// `|o + t d - c|^2 = radius^2`, preferring the smaller root inside
/// `[t_min, t_max]`, else the larger; a degenerate direction
/// (`|d|^2 = 0`) never hits.
pub open spec fn sphere_hit(
    center: (int, int, int),
    radius: int,
    mat: int,
    orig: (int, int, int),
    dir: (int, int, int),
    time: int,
    t_min: int,
    t_max: int,
) -> Option<HitRecord> {
    let oc = vsub(orig, center);
    let a = vlen2(dir);
    let half_b = vdot(oc, dir);
    let c = fx_sub(vlen2(oc), fx_mul(radius, radius));
    let discriminant = fx_sub(fx_mul(half_b, half_b), fx_mul(a, c));
    if a == 0 || discriminant < 0 {
        None
    } else {
        let sqrtd = fx_sqrt(discriminant);
        let root1 = fx_div(fx_sub(fx_neg(half_b), sqrtd), a);
        let root2 = fx_div(fx_add(fx_neg(half_b), sqrtd), a);
        if t_min <= root1 <= t_max {
            Some(sphere_rec(center, radius, mat, orig, dir, root1))
        } else if t_min <= root2 <= t_max {
            Some(sphere_rec(center, radius, mat, orig, dir, root2))
        } else {
            None
        }
    }
}

/// The interaction record for a sphere hit at parameter `root`.
pub open spec fn sphere_rec(
    center: (int, int, int),
    radius: int,
    mat: int,
    orig: (int, int, int),
    dir: (int, int, int),
    root: int,
) -> HitRecord {
    let hit_p = ray_at(orig, dir, root);
    let outward = vdiv(vsub(hit_p, center), radius);
    let uv = sphere_uv(outward);
    rec_from(dir, outward, mat, root, uv.0, uv.1, hit_p)
}

#[derive(Clone, Copy, PartialEq, Eq, Structural, Debug)]
pub struct Sphere {
    pub center: Point3,
    pub radius: Fixed,
    pub mat: usize,
}

impl Sphere {
    pub fn new(center: Point3, radius: Fixed, mat: usize) -> (r: Sphere)
        ensures
            r == (Sphere { center, radius, mat }),
    {
        Sphere { center, radius, mat }
    }

    pub fn center(&self) -> (r: &Point3)
        ensures
            *r == self.center,
    {
        &self.center
    }

    pub fn radius(&self) -> (r: Fixed)
        ensures
            r == self.radius,
    {
        self.radius
    }

    pub fn mat(&self) -> (r: usize)
        ensures
            r == self.mat,
    {
        self.mat
    }

    pub(crate) fn get_uv(p: &Point3) -> (r: (Fixed, Fixed))
        ensures
            (r.0.raw as int, r.1.raw as int) == sphere_uv(v3(*p)),
    {
        proof {
            reveal(crate::sphere::sphere_uv);
        }
        let theta = p.y.neg().acos();
        let phi = Fixed::atan2(p.z.neg(), p.x).plus(Fixed::from_raw(PI_RAW));
        let u = phi.times(Fixed::from_raw(FRAC_1_PI_RAW)).times(Fixed::from_raw(0x2000_0000));
        let v = theta.times(Fixed::from_raw(FRAC_1_PI_RAW));
        (u, v)
    }

    /// The nearest intersection of the ray with this sphere inside
    /// `[t_min, t_max]`.
    pub fn hit(&self, r: &Ray, t_min: Fixed, t_max: Fixed) -> (res: Option<HitRecord>)
        ensures
            res == sphere_hit(
                v3(self.center),
                self.radius.raw as int,
                self.mat as int,
                v3(r.orig),
                v3(r.dir),
                r.time.raw as int,
                t_min.raw as int,
                t_max.raw as int,
            ),
            res matches Some(h) ==> t_min.raw <= h.t.raw <= t_max.raw,
    {
        let oc: Vec3 = r.origin().minus(self.center());
        let a = r.direction().length_squared();
        let half_b = Vec3::dot(&oc, r.direction());
        let c = oc.length_squared().minus(self.radius.times(self.radius));
        let discriminant = half_b.times(half_b).minus(a.times(c));
        if a.raw == 0 || discriminant.is_neg() {
            return None;
        }
        let sqrtd = discriminant.sqrt();
        let mut root = half_b.neg().minus(sqrtd).div_by(a);
        if root.lt(t_min) || t_max.lt(root) {
            root = half_b.neg().plus(sqrtd).div_by(a);
            if root.lt(t_min) || t_max.lt(root) {
                return None;
            }
        }
        let hit_p = r.at(root);
        let outward: Vec3 = hit_p.minus(self.center()).div_scalar(self.radius);
        let uv = Sphere::get_uv(&outward);
        Some(HitRecord::new(r, outward, self.mat, root, uv.0, uv.1))
    }
}

} // verus!
