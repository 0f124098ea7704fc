//! The specular material: mirror reflection perturbed by a fuzz-scaled
//! ball sample, absorbing rays that end up under the surface.  With zero
//! fuzz the scattered direction is exactly the mirror reflection.

use vstd::prelude::*;

use crate::color::Color;
use crate::fixed::{Fixed, SCALE};
use crate::hittable::HitRecord;
use crate::material::Scatter;
use crate::ray::Ray;
use crate::rng_float::RngGen;
use crate::vec3::{v3, vadd, vdot, vlen2, vreflect, vscale, vunit, Vec3};

verus! {

/// The fuzz-free scattering direction: the unit incoming direction
/// reflected about the shading normal.
pub open spec fn metal_reflect_dir(dir: (int, int, int), n: (int, int, int)) -> (int, int, int) {
    vreflect(vunit(dir), n)
}

/// The perturbed scattering direction: the mirror reflection offset by
/// the fuzz-scaled ball sample `b`.
pub open spec fn metal_fuzzed_dir(
    m: Metal,
    dir: (int, int, int),
    n: (int, int, int),
    b: (int, int, int),
) -> (int, int, int) {
    vadd(metal_reflect_dir(dir, n), vscale(m.fuzz.raw as int, b))
}

#[derive(Clone, Copy, PartialEq, Eq, Structural, Debug)]
pub struct Metal {
    pub albedo: Color,
    pub fuzz: Fixed,
}

impl Metal {
    /// A metal with the given reflectance and roughness; fuzz is clamped
    /// into [0, 1].
    pub fn new(albedo: Color, fuzz: Fixed) -> (r: Metal)
        ensures
            r.albedo == albedo,
            r.fuzz.raw == (if fuzz.raw < 0 {
                0int
            } else if fuzz.raw < SCALE {
                fuzz.raw as int
            } else {
                SCALE as int
            }),
    {
        let fuzz = if fuzz.is_neg() {
            Fixed::zero()
        } else if fuzz.lt(Fixed::one()) {
            fuzz
        } else {
            Fixed::one()
        };
        Metal { albedo, fuzz }
    }

    /// Reflect, perturb by `fuzz * ball_sample`, absorb exactly when the
    /// perturbed direction does not leave the surface.
    pub fn scatter(&self, r_in: &Ray, hit: &HitRecord, rng: &mut RngGen) -> (s: Scatter)
        ensures
            ({
                let mirror = metal_reflect_dir(v3(r_in.dir), v3(hit.normal));
                match s {
                    Scatter::Scattered(ray, col) => {
                        &&& v3(col) == v3(self.albedo)
                        &&& ray.orig == hit.p
                        &&& ray.time == r_in.time
                        &&& vdot(v3(ray.dir), v3(hit.normal)) > 0
                        &&& exists|b: (int, int, int)|
                            vlen2(b) < SCALE && v3(ray.dir) == #[trigger] metal_fuzzed_dir(
                                *self,
                                v3(r_in.dir),
                                v3(hit.normal),
                                b,
                            )
                        &&& (self.fuzz.raw == 0 ==> v3(ray.dir) == mirror)
                    },
                    Scatter::Absorbed => {
                        &&& exists|b: (int, int, int)|
                            vlen2(b) < SCALE && !(vdot(
                                #[trigger] metal_fuzzed_dir(
                                    *self,
                                    v3(r_in.dir),
                                    v3(hit.normal),
                                    b,
                                ),
                                v3(hit.normal),
                            ) > 0)
                        &&& (self.fuzz.raw == 0 ==> !(vdot(mirror, v3(hit.normal)) > 0))
                    },
                }
            }),
    {
        let reflect = Vec3::reflect(&r_in.direction().unit_vector(), hit.normal());
        let sample = Vec3::random_sphere(rng);
        let fuzz_offset = sample.scale(self.fuzz);
        let dir = reflect.plus(&fuzz_offset);
        proof {
            assert(v3(dir) == metal_fuzzed_dir(
                *self,
                v3(r_in.dir),
                v3(hit.normal),
                v3(sample),
            ));
            if self.fuzz.raw == 0 {
                crate::vec3::lemma_vscale_zero(v3(sample));
                assert(v3(dir) == vadd(v3(reflect), (0int, 0int, 0int)));
                assert(v3(dir) == v3(reflect));
            }
        }
        let new_ray = Ray::new(hit.p(), &dir, r_in.time());
        if Vec3::dot(new_ray.direction(), hit.normal()).gt(Fixed::zero()) {
            Scatter::Scattered(new_ray, self.albedo.copy())
        } else {
            Scatter::Absorbed
        }
    }
}

} // verus!
