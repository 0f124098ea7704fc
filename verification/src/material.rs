//! The material abstraction: a closed set of scattering models dispatched
//! by a match, plus the scatter outcome type.  Scattering is a pure
//! function of the incoming ray, the interaction and the random draws it
//! consumes; what is deterministic (origins, times, attenuations, the
//! fuzz-free mirror reflection, the total-internal-reflection branch) is
//! pinned exactly.

use vstd::prelude::*;

use crate::color::Color;
use crate::dielectric::{dielectric_cannot_refract, dielectric_choice, dielectric_dirs, Dielectric};
use crate::fixed::Fixed;
use crate::hittable::HitRecord;
use crate::lambertian::{lambertian_dir, Lambertian};
use crate::metal::{metal_fuzzed_dir, metal_reflect_dir, Metal};
use crate::isotropic::Isotropic;
use crate::diffuse_light::DiffuseLight;
use crate::ray::Ray;
use crate::rng_float::RngGen;
use crate::texture::{tex_value_ok, texture_wf};
use crate::fixed::SCALE;
use crate::vec3::{v3, vdot, vlen2, vunit, Vec3};

verus! {

pub type Point3 = Vec3;

/// The outcome of a scattering query: a new ray with an attenuation, or
/// absorption of the path.
#[derive(Debug)]
pub enum Scatter {
    Scattered(Ray, Color),
    Absorbed,
}

/// A placeholder material that absorbs everything and emits nothing.
#[derive(Clone, Copy, PartialEq, Eq, Structural, Debug)]
pub struct NullMaterial;

/// The closed set of materials.
#[derive(Debug)]
pub enum Material {
    Lambertian(Lambertian),
    Metal(Metal),
    Dielectric(Dielectric),
    Isotropic(Isotropic),
    DiffuseLight(DiffuseLight),
    Null(NullMaterial),
}

/// Structural soundness of a material's textures.
pub open spec fn material_wf(m: Material) -> bool {
    match m {
        Material::Lambertian(l) => texture_wf(l.albedo),
        Material::Isotropic(i) => texture_wf(i.albedo),
        Material::DiffuseLight(d) => texture_wf(d.emit),
        _ => true,
    }
}

/// What scattering guarantees, for every outcome of the random draws.
pub open spec fn scatter_ok(m: Material, r_in: Ray, hit: HitRecord, s: Scatter) -> bool {
    match m {
        Material::Lambertian(l) => match s {
            Scatter::Scattered(ray, col) => {
                &&& ray.orig == hit.p
                &&& ray.time == r_in.time
                &&& tex_value_ok(l.albedo, hit.u.raw as int, hit.v.raw as int, v3(hit.p), col)
                &&& exists|sv: (int, int, int)|
                    vlen2(sv) < SCALE && v3(ray.dir) == lambertian_dir(
                        v3(hit.normal),
                        #[trigger] vunit(sv),
                    )
            },
            Scatter::Absorbed => false,
        },
        Material::Metal(mt) => {
            let mirror = metal_reflect_dir(v3(r_in.dir), v3(hit.normal));
            match s {
                Scatter::Scattered(ray, col) => {
                    &&& v3(col) == v3(mt.albedo)
                    &&& ray.orig == hit.p
                    &&& ray.time == r_in.time
                    &&& vdot(v3(ray.dir), v3(hit.normal)) > 0
                    &&& exists|b: (int, int, int)|
                        vlen2(b) < SCALE && v3(ray.dir) == #[trigger] metal_fuzzed_dir(
                            mt,
                            v3(r_in.dir),
                            v3(hit.normal),
                            b,
                        )
                    &&& (mt.fuzz.raw == 0 ==> v3(ray.dir) == mirror)
                },
                Scatter::Absorbed => {
                    &&& exists|b: (int, int, int)|
                        vlen2(b) < SCALE && !(vdot(
                            #[trigger] metal_fuzzed_dir(mt, v3(r_in.dir), v3(hit.normal), b),
                            v3(hit.normal),
                        ) > 0)
                    &&& (mt.fuzz.raw == 0 ==> !(vdot(mirror, v3(hit.normal)) > 0))
                },
            }
        },
        Material::Dielectric(d) => match s {
            Scatter::Scattered(ray, col) => {
                let dirs = dielectric_dirs(
                    d.ior.raw as int,
                    v3(r_in.dir),
                    v3(hit.normal),
                    hit.in_front_face,
                );
                &&& v3(col) == (SCALE as int, SCALE as int, SCALE as int)
                &&& ray.orig == hit.p
                &&& ray.time == r_in.time
                &&& exists|xi: int|
                    0 <= xi < SCALE && v3(ray.dir) == #[trigger] dielectric_choice(
                        d.ior.raw as int,
                        v3(r_in.dir),
                        v3(hit.normal),
                        hit.in_front_face,
                        xi,
                    )
                &&& (v3(ray.dir) == dirs.0 || v3(ray.dir) == dirs.1)
                &&& (dielectric_cannot_refract(
                    d.ior.raw as int,
                    v3(r_in.dir),
                    v3(hit.normal),
                    hit.in_front_face,
                ) ==> v3(ray.dir) == dirs.0)
            },
            Scatter::Absorbed => false,
        },
        Material::Isotropic(i) => match s {
            Scatter::Scattered(ray, col) => ray.orig == hit.p && ray.time == r_in.time && vlen2(
                v3(ray.dir),
            ) < SCALE && tex_value_ok(
                i.albedo,
                hit.u.raw as int,
                hit.v.raw as int,
                v3(hit.p),
                col,
            ),
            Scatter::Absorbed => false,
        },
        Material::DiffuseLight(_) => s is Absorbed,
        Material::Null(_) => s is Absorbed,
    }
}

/// What emission returns: the light's texture value, black for everything
/// else.
pub open spec fn emitted_ok(m: Material, u: int, v: int, p: (int, int, int), c: Color) -> bool {
    match m {
        Material::DiffuseLight(d) => tex_value_ok(d.emit, u, v, p, c),
        _ => v3(c) == (0int, 0int, 0int),
    }
}

impl Material {
    /// Ask the material to scatter the incoming ray at the interaction.
    pub fn scatter(&self, r_in: &Ray, hit: &HitRecord, rng: &mut RngGen) -> (s: Scatter)
        requires
            material_wf(*self),
        ensures
            scatter_ok(*self, *r_in, *hit, s),
    {
        match self {
            Material::Lambertian(l) => l.scatter(r_in, hit, rng),
            Material::Metal(m) => m.scatter(r_in, hit, rng),
            Material::Dielectric(d) => d.scatter(r_in, hit, rng),
            Material::Isotropic(i) => i.scatter(r_in, hit, rng),
            Material::DiffuseLight(_) => Scatter::Absorbed,
            Material::Null(_) => Scatter::Absorbed,
        }
    }

    /// The material's emitted radiance at the interaction.
    pub fn emitted(&self, u: Fixed, v: Fixed, p: &Point3) -> (c: Color)
        requires
            material_wf(*self),
        ensures
            emitted_ok(*self, u.raw as int, v.raw as int, v3(*p), c),
    {
        match self {
            Material::DiffuseLight(d) => d.emit.value(u, v, p),
            _ => Vec3::zero(),
        }
    }
}

} // verus!
