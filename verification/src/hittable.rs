//! The surface-interaction record and the closed set of primitives.
//!
//! Primitives form one recursive enum; intersection and bounding-box
//! queries are dispatched by a match.  `det_hit` is the exact model of the
//! intersection protocol for every deterministic primitive tree (everything
//! but the participating medium, which consumes a random draw).

use vstd::prelude::*;

use crate::aabb::{aabb_hit, joint_max, joint_min, AABB};
use crate::bvh::BvhNode;
use crate::convex_constant_medium::ConvexConstantMedium;
use crate::fixed::{fx_add, fx_mul, fx_sub, fxf, Fixed};
use crate::hittable_list::HittableList;
use crate::moving_sphere::{ms_center, MovingSphere};
use crate::ray::{ray_at, Ray};
use crate::rect_prism::RectPrism;
use crate::rng_float::RngGen;
use crate::rotate_y::RotateY;
use crate::sphere::{sphere_hit, Sphere};
use crate::translate::Translate;
use crate::vec3::{v3, vadd, vdot, vec3f, vneg, vsub, Vec3};

verus! {

pub type Point3 = Vec3;

/// A small parameter offset, about 1e-4: the thickness given to a flat
/// rectangle's bounding box, and the re-entry offset of the medium's second
/// boundary query.
pub const EPS_RAW: i64 = 107374;

/// The front-face flag and the shading normal: the outward normal if it
/// opposes the ray direction, else its negation.
pub open spec fn face_normal(dir: (int, int, int), outward: (int, int, int)) -> (
    bool,
    (int, int, int),
) {
    let ff = vdot(dir, outward) < 0;
    (ff, if ff {
        outward
    } else {
        vneg(outward)
    })
}

#[derive(Clone, Copy, PartialEq, Eq, Structural, Debug)]
pub struct HitRecord {
    pub p: Point3,
    pub normal: Vec3,
    pub mat: usize,
    pub t: Fixed,
    pub u: Fixed,
    pub v: Fixed,
    pub in_front_face: bool,
}

/// The record a primitive returns for a hit at parameter `t` with the given
/// outward normal and texture coordinates.
pub open spec fn rec_from(
    dir: (int, int, int),
    outward: (int, int, int),
    mat: int,
    t: int,
    u: int,
    v: int,
    p: (int, int, int),
) -> HitRecord {
    let fnm = face_normal(dir, outward);
    HitRecord {
        p: vec3f(p),
        normal: vec3f(fnm.1),
        mat: mat as usize,
        t: fxf(t),
        u: fxf(u),
        v: fxf(v),
        in_front_face: fnm.0,
    }
}

impl HitRecord {
    /// Build the record from the ray and the primitive's outward normal,
    /// deriving the front-face flag and the shading normal.
    pub fn new(r: &Ray, outward_normal: Vec3, mat: usize, t: Fixed, u: Fixed, v: Fixed) -> (res:
        HitRecord)
        ensures
            res == rec_from(
                v3(r.dir),
                v3(outward_normal),
                mat as int,
                t.raw as int,
                u.raw as int,
                v.raw as int,
                ray_at(v3(r.orig), v3(r.dir), t.raw as int),
            ),
    {
        let in_front_face = Vec3::dot(r.direction(), &outward_normal).is_neg();
        let normal = if in_front_face {
            outward_normal
        } else {
            outward_normal.neg()
        };
        HitRecord { p: r.at(t), normal, mat, t, u, v, in_front_face }
    }

    /// Build the record directly from its parts.
    pub fn from_settings(
        p: Point3,
        normal: Vec3,
        mat: usize,
        t: Fixed,
        u: Fixed,
        v: Fixed,
        in_front_face: bool,
    ) -> (res: HitRecord)
        ensures
            res == (HitRecord { p, normal, mat, t, u, v, in_front_face }),
    {
        HitRecord { p, normal, mat, t, u, v, in_front_face }
    }

    pub fn p(&self) -> (r: &Point3)
        ensures
            *r == self.p,
    {
        &self.p
    }

    pub fn set_p(&mut self, p: Point3)
        ensures
            *final(self) == (HitRecord { p, ..*old(self) }),
    {
        self.p = p;
    }

    pub fn normal(&self) -> (r: &Vec3)
        ensures
            *r == self.normal,
    {
        &self.normal
    }

    pub fn mat(&self) -> (r: usize)
        ensures
            r == self.mat,
    {
        self.mat
    }

    pub fn set_mat(&mut self, mat: usize)
        ensures
            *final(self) == (HitRecord { mat, ..*old(self) }),
    {
        self.mat = mat;
    }

    pub fn t(&self) -> (r: Fixed)
        ensures
            r == self.t,
    {
        self.t
    }

    pub fn set_t(&mut self, t: Fixed)
        ensures
            *final(self) == (HitRecord { t, ..*old(self) }),
    {
        self.t = t;
    }

    pub fn u(&self) -> (r: Fixed)
        ensures
            r == self.u,
    {
        self.u
    }

    pub fn v(&self) -> (r: Fixed)
        ensures
            r == self.v,
    {
        self.v
    }

    pub fn in_front_face(&self) -> (r: bool)
        ensures
            r == self.in_front_face,
    {
        self.in_front_face
    }

    /// Re-derive the front-face flag and shading normal against a ray.
    pub fn set_face_normal(&mut self, r: &Ray, outward_normal: Vec3)
        ensures
            ({
                let fnm = face_normal(v3(r.dir), v3(outward_normal));
                *final(self) == (HitRecord {
                    normal: vec3f(fnm.1),
                    in_front_face: fnm.0,
                    ..*old(self)
                })
            }),
    {
        let in_front_face = Vec3::dot(r.direction(), &outward_normal).is_neg();
        self.normal = if in_front_face {
            outward_normal
        } else {
            outward_normal.neg()
        };
        self.in_front_face = in_front_face;
    }
}

/// The closed set of primitives.
#[derive(Debug)]
pub enum Hittable {
    Sphere(Sphere),
    MovingSphere(MovingSphere),
    XyRect(crate::aarect::XyRect),
    YzRect(crate::aarect::YzRect),
    ZxRect(crate::aarect::ZxRect),
    Prism(RectPrism),
    Translate(Translate),
    RotateY(RotateY),
    Medium(ConvexConstantMedium),
    List(HittableList),
    Bvh(BvhNode),
}

/// Whether a primitive tree is free of participating media, so that its
/// intersection result is a function of the ray alone.
pub open spec fn deterministic(h: Hittable) -> bool
    decreases h,
{
    match h {
        Hittable::Sphere(_) => true,
        Hittable::MovingSphere(_) => true,
        Hittable::XyRect(_) => true,
        Hittable::YzRect(_) => true,
        Hittable::ZxRect(_) => true,
        Hittable::Prism(p) => deterministic_all(p.sides.objects@),
        Hittable::Translate(t) => deterministic(*t.source),
        Hittable::RotateY(t) => deterministic(*t.source),
        Hittable::Medium(_) => false,
        Hittable::List(l) => deterministic_all(l.objects@),
        Hittable::Bvh(n) => deterministic(*n.left) && match n.right {
            Some(rc) => deterministic(*rc),
            None => true,
        },
    }
}

pub open spec fn deterministic_all(objs: Seq<Hittable>) -> bool
    decreases objs,
{
    objs.len() == 0 || (deterministic(objs[0]) && deterministic_all(objs.subrange(
        1,
        objs.len() as int,
    )))
}

/// The nearest-hit scan over a list of primitives: every child is queried
/// over the full interval and a strictly closer hit displaces the best.
pub open spec fn scan_hits(
    objs: Seq<Hittable>,
    orig: (int, int, int),
    dir: (int, int, int),
    time: int,
    t_min: int,
    t_max: int,
    i: nat,
    closest: int,
    best: Option<HitRecord>,
) -> Option<HitRecord>
    decreases objs, objs.len() - i,
        when i <= objs.len()
{
    if i >= objs.len() {
        best
    } else {
        match det_hit(objs[i as int], orig, dir, time, t_min, t_max) {
            Some(h) => if h.t.raw < closest {
                scan_hits(objs, orig, dir, time, t_min, t_max, i + 1, h.t.raw as int, Some(h))
            } else {
                scan_hits(objs, orig, dir, time, t_min, t_max, i + 1, closest, best)
            },
            None => scan_hits(objs, orig, dir, time, t_min, t_max, i + 1, closest, best),
        }
    }
}

/// The intersection protocol of a deterministic primitive tree: the exact
/// record (or absence) each variant returns for the ray within
/// `[t_min, t_max]`.  A participating medium is not deterministic and maps
/// to no hit here; its behaviour is specified against its random draw.
#[verifier::opaque]
pub open spec fn det_hit(
    h: Hittable,
    orig: (int, int, int),
    dir: (int, int, int),
    time: int,
    t_min: int,
    t_max: int,
) -> Option<HitRecord>
    decreases h, 0nat,
{
    match h {
        Hittable::Sphere(s) => sphere_hit(
            v3(s.center),
            s.radius.raw as int,
            s.mat as int,
            orig,
            dir,
            time,
            t_min,
            t_max,
        ),
        Hittable::MovingSphere(s) => sphere_hit(
            ms_center(v3(s.center0), v3(s.center1), s.time0.raw as int, s.time1.raw as int, time),
            s.radius.raw as int,
            s.mat as int,
            orig,
            dir,
            time,
            t_min,
            t_max,
        ),
        Hittable::XyRect(r) => crate::aarect::xy_rect_hit(
            r.x0.raw as int,
            r.x1.raw as int,
            r.y0.raw as int,
            r.y1.raw as int,
            r.k.raw as int,
            r.mat as int,
            orig,
            dir,
            t_min,
            t_max,
        ),
        Hittable::YzRect(r) => crate::aarect::yz_rect_hit(
            r.y0.raw as int,
            r.y1.raw as int,
            r.z0.raw as int,
            r.z1.raw as int,
            r.k.raw as int,
            r.mat as int,
            orig,
            dir,
            t_min,
            t_max,
        ),
        Hittable::ZxRect(r) => crate::aarect::zx_rect_hit(
            r.z0.raw as int,
            r.z1.raw as int,
            r.x0.raw as int,
            r.x1.raw as int,
            r.k.raw as int,
            r.mat as int,
            orig,
            dir,
            t_min,
            t_max,
        ),
        Hittable::Prism(p) => scan_hits(
            p.sides.objects@,
            orig,
            dir,
            time,
            t_min,
            t_max,
            0,
            t_max,
            None,
        ),
        Hittable::Translate(t) => match det_hit(
            *t.source,
            vsub(orig, v3(t.offset)),
            dir,
            time,
            t_min,
            t_max,
        ) {
            Some(rec) => Some(HitRecord { p: vec3f(vadd(v3(rec.p), v3(t.offset))), ..rec }),
            None => None,
        },
        Hittable::RotateY(t) => match det_hit(
            *t.source,
            rot_to_local(orig, t.sin_theta.raw as int, t.cos_theta.raw as int),
            rot_to_local(dir, t.sin_theta.raw as int, t.cos_theta.raw as int),
            time,
            t_min,
            t_max,
        ) {
            Some(rec) => {
                let wp = rot_to_world(v3(rec.p), t.sin_theta.raw as int, t.cos_theta.raw as int);
                let wn = rot_to_world(
                    v3(rec.normal),
                    t.sin_theta.raw as int,
                    t.cos_theta.raw as int,
                );
                Some(HitRecord { p: vec3f(wp), normal: vec3f(wn), ..rec })
            },
            None => None,
        },
        Hittable::Medium(_) => None,
        Hittable::List(l) => scan_hits(l.objects@, orig, dir, time, t_min, t_max, 0, t_max, None),
        Hittable::Bvh(n) => if !aabb_hit(
            v3(n.aabb.minimum),
            v3(n.aabb.maximum),
            orig,
            dir,
            t_min,
            t_max,
        ) {
            None
        } else {
            let hit_left = det_hit(*n.left, orig, dir, time, t_min, t_max);
            match n.right {
                Some(rc) => {
                    let new_t_max = match hit_left {
                        Some(hl) => hl.t.raw as int,
                        None => t_max,
                    };
                    match det_hit(*rc, orig, dir, time, t_min, new_t_max) {
                        Some(hr) => Some(hr),
                        None => hit_left,
                    }
                },
                None => hit_left,
            }
        },
    }
}

/// A ray expressed in the local frame of a primitive rotated about the
/// vertical axis.
pub open spec fn rot_to_local(p: (int, int, int), sin_t: int, cos_t: int) -> (int, int, int) {
    (fx_sub(fx_mul(cos_t, p.0), fx_mul(sin_t, p.2)), p.1, fx_add(
        fx_mul(sin_t, p.0),
        fx_mul(cos_t, p.2),
    ))
}

/// A local point or normal carried back to the world frame.
pub open spec fn rot_to_world(p: (int, int, int), sin_t: int, cos_t: int) -> (int, int, int) {
    (fx_add(fx_mul(cos_t, p.0), fx_mul(sin_t, p.2)), p.1, fx_add(
        fx_mul(fx_sub(0, sin_t), p.0),
        fx_mul(cos_t, p.2),
    ))
}

/// The bounding-box fold over a list: absent as soon as any child's box is
/// absent, else the union of all of them.
pub open spec fn boxes_fold(
    objs: Seq<Hittable>,
    time0: int,
    time1: int,
    i: nat,
    acc: Option<AABB>,
) -> Option<AABB>
    decreases objs, objs.len() - i,
        when i <= objs.len()
{
    if i >= objs.len() {
        acc
    } else {
        match spec_bbox(objs[i as int], time0, time1) {
            None => None,
            Some(b) => boxes_fold(
                objs,
                time0,
                time1,
                i + 1,
                Some(
                    match acc {
                        None => b,
                        Some(a) => AABB {
                            minimum: vec3f(joint_min(v3(b.minimum), v3(a.minimum))),
                            maximum: vec3f(joint_max(v3(b.maximum), v3(a.maximum))),
                        },
                    },
                ),
            ),
        }
    }
}

/// The bounding box of each primitive over a shutter interval.
pub open spec fn spec_bbox(h: Hittable, time0: int, time1: int) -> Option<AABB>
    decreases h, 0nat,
{
    match h {
        Hittable::Sphere(s) => Some(
            AABB {
                minimum: vec3f(
                    vsub(
                        v3(s.center),
                        (s.radius.raw as int, s.radius.raw as int, s.radius.raw as int),
                    ),
                ),
                maximum: vec3f(
                    vadd(
                        v3(s.center),
                        (s.radius.raw as int, s.radius.raw as int, s.radius.raw as int),
                    ),
                ),
            },
        ),
        Hittable::MovingSphere(s) => {
            let rv = (s.radius.raw as int, s.radius.raw as int, s.radius.raw as int);
            let c0 = ms_center(
                v3(s.center0),
                v3(s.center1),
                s.time0.raw as int,
                s.time1.raw as int,
                time0,
            );
            let c1 = ms_center(
                v3(s.center0),
                v3(s.center1),
                s.time0.raw as int,
                s.time1.raw as int,
                time1,
            );
            Some(
                AABB {
                    minimum: vec3f(joint_min(vsub(c0, rv), vsub(c1, rv))),
                    maximum: vec3f(joint_max(vadd(c0, rv), vadd(c1, rv))),
                },
            )
        },
        Hittable::XyRect(r) => Some(
            AABB {
                minimum: vec3f(
                    (r.x0.raw as int, r.y0.raw as int, fx_sub(r.k.raw as int, EPS_RAW as int)),
                ),
                maximum: vec3f(
                    (r.x1.raw as int, r.y1.raw as int, fx_add(r.k.raw as int, EPS_RAW as int)),
                ),
            },
        ),
        Hittable::YzRect(r) => Some(
            AABB {
                minimum: vec3f(
                    (fx_sub(r.k.raw as int, EPS_RAW as int), r.y0.raw as int, r.z0.raw as int),
                ),
                maximum: vec3f(
                    (fx_add(r.k.raw as int, EPS_RAW as int), r.y1.raw as int, r.z1.raw as int),
                ),
            },
        ),
        Hittable::ZxRect(r) => Some(
            AABB {
                minimum: vec3f(
                    (r.x0.raw as int, fx_sub(r.k.raw as int, EPS_RAW as int), r.z0.raw as int),
                ),
                maximum: vec3f(
                    (r.x1.raw as int, fx_add(r.k.raw as int, EPS_RAW as int), r.z1.raw as int),
                ),
            },
        ),
        Hittable::Prism(p) => Some(AABB { minimum: p.box_min, maximum: p.box_max }),
        Hittable::Translate(t) => match spec_bbox(*t.source, time0, time1) {
            Some(b) => Some(
                AABB {
                    minimum: vec3f(vadd(v3(b.minimum), v3(t.offset))),
                    maximum: vec3f(vadd(v3(b.maximum), v3(t.offset))),
                },
            ),
            None => None,
        },
        Hittable::RotateY(t) => t.box_opt,
        Hittable::Medium(m) => spec_bbox(*m.boundary, time0, time1),
        Hittable::List(l) => boxes_fold(l.objects@, time0, time1, 0, None),
        Hittable::Bvh(n) => Some(n.aabb),
    }
}

/// Every element of a deterministic list is itself deterministic.
pub proof fn lemma_det_all_index(objs: Seq<Hittable>, i: int)
    requires
        deterministic_all(objs),
        0 <= i < objs.len(),
    ensures
        deterministic(objs[i]),
    decreases objs.len(),
{
    if i > 0 {
        lemma_det_all_index(objs.subrange(1, objs.len() as int), i - 1);
    }
}

impl Hittable {
    /// The nearest interaction of the ray with this primitive tree inside
    /// `[t_min, t_max]`; participating media consume draws from the random
    /// stream, every other variant is pinned exactly by `det_hit`.
    pub fn hit(&self, r: &Ray, t_min: Fixed, t_max: Fixed, rng: &mut RngGen) -> (res: Option<
        HitRecord,
    >)
        ensures
            deterministic(*self) ==> res == det_hit(
                *self,
                v3(r.orig),
                v3(r.dir),
                r.time.raw as int,
                t_min.raw as int,
                t_max.raw as int,
            ),
            res matches Some(h) ==> t_min.raw <= h.t.raw <= t_max.raw,
        decreases *self,
    {
        proof {
            reveal(crate::hittable::det_hit);
        }
        match self {
            Hittable::Sphere(s) => s.hit(r, t_min, t_max),
            Hittable::MovingSphere(s) => s.hit(r, t_min, t_max),
            Hittable::XyRect(x) => x.hit(r, t_min, t_max),
            Hittable::YzRect(x) => x.hit(r, t_min, t_max),
            Hittable::ZxRect(x) => x.hit(r, t_min, t_max),
            Hittable::Prism(p) => hit_objects(&p.sides.objects, r, t_min, t_max, rng),
            Hittable::Translate(t) => {
                let offset_ray = Ray::new(&r.origin().minus(&t.offset), r.direction(), r.time());
                match t.source.hit(&offset_ray, t_min, t_max, rng) {
                    Some(mut rec) => {
                        // The shading normal and front-face flag were derived
                        // by the child from the geometric outward normal, and
                        // a translation changes neither direction, so both
                        // carry over unchanged.
                        let np = rec.p.plus(&t.offset);
                        rec.set_p(np);
                        Some(rec)
                    },
                    None => None,
                }
            },
            Hittable::RotateY(t) => {
                let origin = Vec3 {
                    x: t.cos_theta.times(r.orig.x).minus(t.sin_theta.times(r.orig.z)),
                    y: r.orig.y,
                    z: t.sin_theta.times(r.orig.x).plus(t.cos_theta.times(r.orig.z)),
                };
                let direction = Vec3 {
                    x: t.cos_theta.times(r.dir.x).minus(t.sin_theta.times(r.dir.z)),
                    y: r.dir.y,
                    z: t.sin_theta.times(r.dir.x).plus(t.cos_theta.times(r.dir.z)),
                };
                let rotated_r = Ray::new(&origin, &direction, r.time());
                match t.source.hit(&rotated_r, t_min, t_max, rng) {
                    Some(rec) => {
                        // The front-face flag derives from the outward normal
                        // in the child's frame; the rotation preserves that
                        // relation, so only the point and shading normal are
                        // carried back to world space.
                        let p = Vec3 {
                            x: t.cos_theta.times(rec.p.x).plus(t.sin_theta.times(rec.p.z)),
                            y: rec.p.y,
                            z: Fixed::zero().minus(t.sin_theta).times(rec.p.x).plus(
                                t.cos_theta.times(rec.p.z),
                            ),
                        };
                        let normal = Vec3 {
                            x: t.cos_theta.times(rec.normal.x).plus(t.sin_theta.times(rec.normal.z)),
                            y: rec.normal.y,
                            z: Fixed::zero().minus(t.sin_theta).times(rec.normal.x).plus(
                                t.cos_theta.times(rec.normal.z),
                            ),
                        };
                        Some(
                            HitRecord::from_settings(
                                p,
                                normal,
                                rec.mat,
                                rec.t,
                                rec.u,
                                rec.v,
                                rec.in_front_face,
                            ),
                        )
                    },
                    None => None,
                }
            },
            Hittable::Medium(m) => {
                match m.boundary.hit(r, Fixed::neg_infinity(), Fixed::infinity(), rng) {
                    Some(h1) => {
                        let t_restart = h1.t.plus(Fixed::from_raw(EPS_RAW));
                        match m.boundary.hit(r, t_restart, Fixed::infinity(), rng) {
                            Some(h2) => {
                                let xi = rng.get();
                                m.resolve(&h1, &h2, r, t_min, t_max, xi)
                            },
                            None => None,
                        }
                    },
                    None => None,
                }
            },
            Hittable::List(l) => hit_objects(&l.objects, r, t_min, t_max, rng),
            Hittable::Bvh(n) => {
                if !n.aabb.hit(r, t_min, t_max) {
                    return None;
                }
                let hit_left = n.left.hit(r, t_min, t_max, rng);
                match &n.right {
                    Some(rc) => {
                        let new_t_max = match &hit_left {
                            Some(hl) => hl.t,
                            None => t_max,
                        };
                        let hit_right = rc.hit(r, t_min, new_t_max, rng);
                        match hit_right {
                            Some(hr) => Some(hr),
                            None => hit_left,
                        }
                    },
                    None => hit_left,
                }
            },
        }
    }

    /// The bounding box of the primitive over a shutter interval, absent
    /// only for an empty list (directly or through a decorator).
    pub fn bounding_box(&self, time0: Fixed, time1: Fixed) -> (res: Option<AABB>)
        ensures
            res == spec_bbox(*self, time0.raw as int, time1.raw as int),
        decreases *self,
    {
        match self {
            Hittable::Sphere(s) => {
                let rv = Vec3::new(s.radius, s.radius, s.radius);
                Some(AABB::new(s.center.minus(&rv), s.center.plus(&rv)))
            },
            Hittable::MovingSphere(s) => {
                let rv = Vec3::new(s.radius, s.radius, s.radius);
                let c0 = s.center(time0);
                let c1 = s.center(time1);
                let b0 = AABB::new(c0.minus(&rv), c0.plus(&rv));
                let b1 = AABB::new(c1.minus(&rv), c1.plus(&rv));
                Some(AABB::joint_box(&b0, &b1))
            },
            Hittable::XyRect(x) => {
                let eps = Fixed::from_raw(EPS_RAW);
                Some(
                    AABB::new(
                        Vec3::new(x.x0, x.y0, x.k.minus(eps)),
                        Vec3::new(x.x1, x.y1, x.k.plus(eps)),
                    ),
                )
            },
            Hittable::YzRect(x) => {
                let eps = Fixed::from_raw(EPS_RAW);
                Some(
                    AABB::new(
                        Vec3::new(x.k.minus(eps), x.y0, x.z0),
                        Vec3::new(x.k.plus(eps), x.y1, x.z1),
                    ),
                )
            },
            Hittable::ZxRect(x) => {
                let eps = Fixed::from_raw(EPS_RAW);
                Some(
                    AABB::new(
                        Vec3::new(x.x0, x.k.minus(eps), x.z0),
                        Vec3::new(x.x1, x.k.plus(eps), x.z1),
                    ),
                )
            },
            Hittable::Prism(p) => Some(AABB::new(p.box_min.copy(), p.box_max.copy())),
            Hittable::Translate(t) => {
                match t.source.bounding_box(time0, time1) {
                    Some(b) => Some(
                        AABB::new(b.minimum.plus(&t.offset), b.maximum.plus(&t.offset)),
                    ),
                    None => None,
                }
            },
            Hittable::RotateY(t) => t.box_opt,
            Hittable::Medium(m) => m.boundary.bounding_box(time0, time1),
            Hittable::List(l) => bbox_objects(&l.objects, time0, time1),
            Hittable::Bvh(n) => Some(n.aabb.copy()),
        }
    }

}

/// The linear nearest-hit scan shared by lists and prisms.
pub fn hit_objects(
    objs: &Vec<Hittable>,
    r: &Ray,
    t_min: Fixed,
    t_max: Fixed,
    rng: &mut RngGen,
) -> (res: Option<HitRecord>)
    ensures
        deterministic_all(objs@) ==> res == scan_hits(
            objs@,
            v3(r.orig),
            v3(r.dir),
            r.time.raw as int,
            t_min.raw as int,
            t_max.raw as int,
            0,
            t_max.raw as int,
            None,
        ),
        res matches Some(h) ==> t_min.raw <= h.t.raw <= t_max.raw,
    decreases objs@,
{
    let ghost full = scan_hits(
        objs@,
        v3(r.orig),
        v3(r.dir),
        r.time.raw as int,
        t_min.raw as int,
        t_max.raw as int,
        0,
        t_max.raw as int,
        None,
    );
    let mut closest = t_max;
    let mut best: Option<HitRecord> = None;
    let mut i: usize = 0;
    while i < objs.len()
        invariant
            i <= objs@.len(),
            deterministic_all(objs@) ==> full == scan_hits(
                objs@,
                v3(r.orig),
                v3(r.dir),
                r.time.raw as int,
                t_min.raw as int,
                t_max.raw as int,
                i as nat,
                closest.raw as int,
                best,
            ),
            best matches Some(h) ==> t_min.raw <= h.t.raw <= t_max.raw,
        decreases objs@.len() - i,
    {
        proof {
            reveal(crate::hittable::det_hit);
            if deterministic_all(objs@) {
                lemma_det_all_index(objs@, i as int);
            }
        }
        let cand = objs[i].hit(r, t_min, t_max, rng);
        match cand {
            Some(h) => {
                if h.t.lt(closest) {
                    closest = h.t;
                    best = Some(h);
                }
            },
            None => {},
        }
        i = i + 1;
    }
    best
}

/// The bounding-box union shared by lists and prisms.
pub fn bbox_objects(objs: &Vec<Hittable>, time0: Fixed, time1: Fixed) -> (res: Option<AABB>)
    ensures
        res == boxes_fold(objs@, time0.raw as int, time1.raw as int, 0, None),
    decreases objs@,
{
    let mut acc: Option<AABB> = None;
    let mut i: usize = 0;
    while i < objs.len()
        invariant
            i <= objs@.len(),
            boxes_fold(objs@, time0.raw as int, time1.raw as int, 0, None) == boxes_fold(
                objs@,
                time0.raw as int,
                time1.raw as int,
                i as nat,
                acc,
            ),
        decreases objs@.len() - i,
    {
        match objs[i].bounding_box(time0, time1) {
            None => {
                return None;
            },
            Some(b) => {
                acc = match &acc {
                    None => Some(b),
                    Some(a) => Some(AABB::joint_box(&b, a)),
                };
            },
        }
        i = i + 1;
    }
    acc
}

} // verus!
