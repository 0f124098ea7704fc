//! A homogeneous participating medium bounded by a convex primitive.  The
//! boundary is crossed twice; a free-path distance drawn from the caller's
//! random stream decides whether the ray scatters inside or passes through.

use vstd::prelude::*;

use crate::fixed::{fx_add, fx_div, fx_mul, fx_neg, fx_sub, Fixed, SCALE};
use crate::hittable::{HitRecord, Hittable};
use crate::ray::{ray_at, Ray};
use crate::trig::sp_ln_unit;
use crate::vec3::{v3, vec3f, vlen, Vec3};

verus! {

/// The scattering decision, given the two boundary crossings at `t1` and
/// `t2`, the queried interval, and the unit draw `xi`.  The crossings are
/// clamped into the interval (and below by zero); the free-path distance is
/// `neg_inv_density * ln(xi)`, and the ray scatters only when that distance
/// falls inside the boundary segment.
pub open spec fn medium_resolve(
    t1_in: int,
    t2_in: int,
    orig: (int, int, int),
    dir: (int, int, int),
    t_min: int,
    t_max: int,
    neg_inv_density: int,
    phase: int,
    xi: int,
) -> Option<HitRecord> {
    let t1a = if t1_in < t_min {
        t_min
    } else {
        t1_in
    };
    let t2 = if t2_in > t_max {
        t_max
    } else {
        t2_in
    };
    let t1 = if t1a < 0 {
        0
    } else {
        t1a
    };
    if t1 >= t2 {
        None
    } else {
        let ray_len = vlen(dir);
        if ray_len == 0 {
            None
        } else {
            let dist_inside = fx_mul(fx_sub(t2, t1), ray_len);
            let hit_dist = fx_mul(neg_inv_density, sp_ln_unit(xi));
            if hit_dist < 0 || hit_dist > dist_inside {
                None
            } else {
                let rec_t = fx_add(t1, fx_div(hit_dist, ray_len));
                Some(
                    HitRecord {
                        p: vec3f(ray_at(orig, dir, rec_t)),
                        normal: vec3f((SCALE as int, 0, 0)),
                        mat: phase as usize,
                        t: crate::fixed::fxf(rec_t),
                        u: crate::fixed::fxf(0),
                        v: crate::fixed::fxf(0),
                        in_front_face: true,
                    },
                )
            }
        }
    }
}

#[derive(Debug)]
pub struct ConvexConstantMedium {
    pub boundary: Box<Hittable>,
    pub phase_function: usize,
    pub neg_inv_density: Fixed,
}

impl ConvexConstantMedium {
    /// Wrap a convex boundary with a homogeneous density; `phase_function`
    /// is the handle of the phase-function material (normally isotropic).
    pub fn new(boundary: Box<Hittable>, density: Fixed, phase_function: usize) -> (r:
        ConvexConstantMedium)
        ensures
            r.boundary == boundary,
            r.phase_function == phase_function,
            r.neg_inv_density.raw as int == fx_neg(fx_div(SCALE as int, density.raw as int)),
    {
        let neg_inv_density = density.recip().neg();
        ConvexConstantMedium { boundary, phase_function, neg_inv_density }
    }

    /// The scattering decision for the two boundary crossings and the unit
    /// draw `xi`; deterministic in its arguments.
    pub fn resolve(
        &self,
        hit1: &HitRecord,
        hit2: &HitRecord,
        r: &Ray,
        t_min: Fixed,
        t_max: Fixed,
        xi: Fixed,
    ) -> (res: Option<HitRecord>)
        requires
            0 <= xi.raw < SCALE,
        ensures
            res == medium_resolve(
                hit1.t.raw as int,
                hit2.t.raw as int,
                v3(r.orig),
                v3(r.dir),
                t_min.raw as int,
                t_max.raw as int,
                self.neg_inv_density.raw as int,
                self.phase_function as int,
                xi.raw as int,
            ),
            res matches Some(h) ==> t_min.raw <= h.t.raw <= t_max.raw,
    {
        let t1a = if hit1.t.lt(t_min) {
            t_min
        } else {
            hit1.t
        };
        let t2 = if hit2.t.gt(t_max) {
            t_max
        } else {
            hit2.t
        };
        let t1 = if t1a.is_neg() {
            Fixed::zero()
        } else {
            t1a
        };
        if t1.ge(t2) {
            return None;
        }
        let ray_len = r.direction().length();
        if ray_len.raw == 0 {
            return None;
        }
        let dist_inside = t2.minus(t1).times(ray_len);
        let hit_dist = self.neg_inv_density.times(xi.ln_unit());
        if hit_dist.is_neg() || hit_dist.gt(dist_inside) {
            return None;
        }
        let q = hit_dist.div_by(ray_len);
        let rec_t = t1.plus(q);
        proof {
            lemma_resolve_t_in_range(
                t1.raw as int,
                t2.raw as int,
                hit_dist.raw as int,
                dist_inside.raw as int,
                ray_len.raw as int,
                t_min.raw as int,
                t_max.raw as int,
            );
        }
        let rec_p = r.at(rec_t);
        Some(
            HitRecord::from_settings(
                rec_p,
                Vec3::right(),
                self.phase_function,
                rec_t,
                Fixed::zero(),
                Fixed::zero(),
                true,
            ),
        )
    }
}

/// The scattering parameter stays inside the queried interval: the sampled
/// distance is at most the boundary segment, and division and saturation
/// only shrink it.
proof fn lemma_resolve_t_in_range(
    t1: int,
    t2: int,
    hit_dist: int,
    dist_inside: int,
    ray_len: int,
    t_min: int,
    t_max: int,
)
    requires
        t_min <= t1,
        0 <= t1 < t2 <= t_max,
        t2 <= i64::MAX,
        ray_len > 0,
        dist_inside == fx_mul(fx_sub(t2, t1), ray_len),
        0 <= hit_dist <= dist_inside,
    ensures
        t_min <= fx_add(t1, fx_div(hit_dist, ray_len)) <= t_max,
{
    let d21 = t2 - t1;
    assert(fx_sub(t2, t1) == d21);
    let prod = d21 * ray_len;
    assert(prod >= 0) by (nonlinear_arith)
        requires
            prod == d21 * ray_len,
            d21 >= 0,
            ray_len > 0,
    ;
    // dist_inside is at most (d21 * ray_len) / SCALE, so scaling the sampled
    // distance back up stays below the product.
    vstd::arithmetic::div_mod::lemma_div_pos_is_pos(prod, SCALE as int);
    assert(hit_dist <= prod / (SCALE as int));
    vstd::arithmetic::mul::lemma_mul_inequality(hit_dist, prod / (SCALE as int), SCALE as int);
    vstd::arithmetic::div_mod::lemma_fundamental_div_mod(prod, SCALE as int);
    vstd::arithmetic::div_mod::lemma_mod_bound(prod, SCALE as int);
    assert((prod / (SCALE as int)) * SCALE == (SCALE as int) * (prod / (SCALE as int)))
        by (nonlinear_arith);
    assert(hit_dist * SCALE <= prod);
    // Dividing back by the ray length bounds the parameter step by the
    // segment length.
    vstd::arithmetic::div_mod::lemma_div_pos_is_pos(hit_dist * SCALE, ray_len);
    vstd::arithmetic::div_mod::lemma_div_is_ordered(hit_dist * SCALE, prod, ray_len);
    assert(prod / ray_len == d21) by (nonlinear_arith)
        requires
            prod == d21 * ray_len,
            ray_len > 0,
    ;
    assert(fx_div(hit_dist, ray_len) <= d21);
    assert(t1 + fx_div(hit_dist, ray_len) <= t2);
}

} // verus!
