//! The diffuse material: scattering toward the normal perturbed by a
//! random unit vector, with the near-zero cancellation fallback.

use vstd::prelude::*;

use crate::color::Color;
use crate::hittable::HitRecord;
use crate::material::Scatter;
use crate::ray::Ray;
use crate::rng_float::RngGen;
use crate::texture::{tex_value_ok, texture_wf, SolidColor, Texture};
use crate::fixed::SCALE;
use crate::vec3::{v3, vadd, vlen2, vnear_zero, vunit, Vec3};

verus! {

/// The diffuse scattering direction for a drawn unit vector: the normal
/// plus the draw, or the normal alone when the sum cancels to near zero.
pub open spec fn lambertian_dir(n: (int, int, int), u: (int, int, int)) -> (int, int, int) {
    let d0 = vadd(n, u);
    if vnear_zero(d0) {
        n
    } else {
        d0
    }
}

#[derive(Debug)]
pub struct Lambertian {
    pub albedo: Texture,
}

impl Lambertian {
    pub fn new(albedo: Texture) -> (r: Lambertian)
        ensures
            r.albedo == albedo,
    {
        Lambertian { albedo }
    }

    pub fn new_from_color(c: Color) -> (r: Lambertian)
        ensures
            r.albedo == Texture::Solid(SolidColor { color_value: c }),
            texture_wf(r.albedo),
    {
        Lambertian { albedo: Texture::Solid(SolidColor::new(c)) }
    }

    /// Always scatters: toward `normal + random_unit`, or along the normal
    /// itself when the sum cancels to near zero.
    pub fn scatter(&self, r_in: &Ray, hit: &HitRecord, rng: &mut RngGen) -> (s: Scatter)
        requires
            texture_wf(self.albedo),
        ensures
            ({
                match s {
                    Scatter::Scattered(ray, col) => {
                        &&& ray.orig == hit.p
                        &&& ray.time == r_in.time
                        &&& tex_value_ok(
                            self.albedo,
                            hit.u.raw as int,
                            hit.v.raw as int,
                            v3(hit.p),
                            col,
                        )
                        &&& exists|sv: (int, int, int)|
                            vlen2(sv) < SCALE && v3(ray.dir) == lambertian_dir(
                                v3(hit.normal),
                                #[trigger] vunit(sv),
                            )
                    },
                    Scatter::Absorbed => false,
                }
            }),
    {
        let ru = Vec3::random_unit(rng);
        let d0 = hit.normal().plus(&ru);
        let dir = if d0.near_zero() {
            hit.normal().copy()
        } else {
            d0
        };
        proof {
            let sv = choose|sv: (int, int, int)| vlen2(sv) < SCALE && v3(ru) == #[trigger] vunit(
                sv,
            );
            assert(vlen2(sv) < SCALE && v3(dir) == lambertian_dir(v3(hit.normal), vunit(sv)));
        }
        let new_ray = Ray::new(hit.p(), &dir, r_in.time());
        let new_color = self.albedo.value(hit.u(), hit.v(), hit.p());
        Scatter::Scattered(new_ray, new_color)
    }
}

} // verus!
