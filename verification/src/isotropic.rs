//! The isotropic phase function of a participating medium: scattering
//! uniformly over the whole sphere of directions.

use vstd::prelude::*;

use crate::color::Color;
use crate::fixed::SCALE;
use crate::hittable::HitRecord;
use crate::material::Scatter;
use crate::ray::Ray;
use crate::rng_float::RngGen;
use crate::texture::{tex_value_ok, texture_wf, SolidColor, Texture};
use crate::vec3::{v3, vlen2, Vec3};

verus! {

#[derive(Debug)]
pub struct Isotropic {
    pub albedo: Texture,
}

impl Isotropic {
    pub fn new(albedo: Texture) -> (r: Isotropic)
        ensures
            r.albedo == albedo,
    {
        Isotropic { albedo }
    }

    pub fn new_from_color(c: Color) -> (r: Isotropic)
        ensures
            r.albedo == Texture::Solid(SolidColor { color_value: c }),
            texture_wf(r.albedo),
    {
        Isotropic { albedo: Texture::Solid(SolidColor::new(c)) }
    }

    /// Always scatters into a uniformly random direction in the unit ball.
    pub fn scatter(&self, r_in: &Ray, hit: &HitRecord, rng: &mut RngGen) -> (s: Scatter)
        requires
            texture_wf(self.albedo),
        ensures
            ({
                match s {
                    Scatter::Scattered(ray, col) => ray.orig == hit.p && ray.time == r_in.time
                        && vlen2(v3(ray.dir)) < SCALE && tex_value_ok(
                        self.albedo,
                        hit.u.raw as int,
                        hit.v.raw as int,
                        v3(hit.p),
                        col,
                    ),
                    Scatter::Absorbed => false,
                }
            }),
    {
        let scattered = Ray::new(hit.p(), &Vec3::random_sphere(rng), r_in.time());
        let attenuation = self.albedo.value(hit.u(), hit.v(), hit.p());
        Scatter::Scattered(scattered, attenuation)
    }
}

} // verus!
