//! The dielectric material: always scatters, choosing between reflection
//! and Snell refraction.  Total internal reflection is forced whenever
//! the scaled sine exceeds one; otherwise the Schlick reflectance is
//! compared against a uniform draw.

use vstd::prelude::*;

use crate::color::Color;
use crate::fixed::{fx_add, fx_div, fx_min, fx_mul, fx_sqrt, fx_sub, Fixed, SCALE};
use crate::hittable::HitRecord;
use crate::material::Scatter;
use crate::ray::Ray;
use crate::rng_float::RngGen;
use crate::vec3::{v3, vdot, vneg, vrefract, vreflect, vunit, Vec3};

verus! {

/// Fifth power by repeated squaring, as the Schlick term computes it.
pub open spec fn sp_pow5(x: int) -> int {
    let p2 = fx_mul(x, x);
    let p4 = fx_mul(p2, p2);
    fx_mul(p4, x)
}

/// The Schlick reflectance approximation.
pub open spec fn sp_reflectance(cosine: int, ratio: int) -> int {
    let r0 = fx_div(fx_sub(SCALE as int, ratio), fx_add(SCALE as int, ratio));
    let r0s = fx_mul(r0, r0);
    fx_add(r0s, fx_mul(fx_sub(SCALE as int, r0s), sp_pow5(fx_sub(SCALE as int, cosine))))
}

/// The refraction ratio on the interaction's side of the surface.
pub open spec fn dielectric_ratio(ior: int, front: bool) -> int {
    if front {
        fx_div(SCALE as int, ior)
    } else {
        ior
    }
}

/// The cosine of the incident angle, clamped at one.
pub open spec fn dielectric_cos(dir: (int, int, int), n: (int, int, int)) -> int {
    fx_min(vdot(vneg(vunit(dir)), n), SCALE as int)
}

/// Whether Snell's law admits no refracted ray (total internal
/// reflection): `ratio * sin(theta) > 1`.
pub open spec fn dielectric_cannot_refract(
    ior: int,
    dir: (int, int, int),
    n: (int, int, int),
    front: bool,
) -> bool {
    let ratio = dielectric_ratio(ior, front);
    let cos = dielectric_cos(dir, n);
    let sin = fx_sqrt(fx_sub(SCALE as int, fx_mul(cos, cos)));
    fx_mul(ratio, sin) > SCALE
}

/// The two candidate scattering directions: the reflection and the Snell
/// refraction of the unit incoming direction.
pub open spec fn dielectric_dirs(
    ior: int,
    dir: (int, int, int),
    n: (int, int, int),
    front: bool,
) -> ((int, int, int), (int, int, int)) {
    let ratio = dielectric_ratio(ior, front);
    let unit = vunit(dir);
    (vreflect(unit, n), vrefract(unit, n, ratio))
}

/// The direction chosen for a given unit draw: reflection under total
/// internal reflection or when the Schlick reflectance exceeds the draw,
/// refraction otherwise.
pub open spec fn dielectric_choice(
    ior: int,
    dir: (int, int, int),
    n: (int, int, int),
    front: bool,
    xi: int,
) -> (int, int, int) {
    let dirs = dielectric_dirs(ior, dir, n, front);
    if dielectric_cannot_refract(ior, dir, n, front) || sp_reflectance(
        dielectric_cos(dir, n),
        dielectric_ratio(ior, front),
    ) > xi {
        dirs.0
    } else {
        dirs.1
    }
}

#[derive(Clone, Copy, PartialEq, Eq, Structural, Debug)]
pub struct Dielectric {
    pub ior: Fixed,
}

impl Dielectric {
    pub fn new(ior: Fixed) -> (r: Dielectric)
        ensures
            r.ior == ior,
    {
        Dielectric { ior }
    }

    fn reflectance(cosine: Fixed, refraction_ratio: Fixed) -> (r: Fixed)
        ensures
            r.raw as int == sp_reflectance(cosine.raw as int, refraction_ratio.raw as int),
    {
        let r0 = Fixed::one().minus(refraction_ratio).div_by(
            Fixed::one().plus(refraction_ratio),
        );
        let r0s = r0.times(r0);
        let x = Fixed::one().minus(cosine);
        let p2 = x.times(x);
        let p4 = p2.times(p2);
        let p5 = p4.times(x);
        r0s.plus(Fixed::one().minus(r0s).times(p5))
    }

    /// Always scatters with neutral attenuation; the direction is the
    /// reflection under total internal reflection, else reflection or
    /// refraction by the Schlick draw.
    pub fn scatter(&self, r_in: &Ray, hit: &HitRecord, rng: &mut RngGen) -> (s: Scatter)
        ensures
            ({
                match s {
                    Scatter::Scattered(ray, col) => {
                        let dirs = dielectric_dirs(
                            self.ior.raw as int,
                            v3(r_in.dir),
                            v3(hit.normal),
                            hit.in_front_face,
                        );
                        &&& v3(col) == (SCALE as int, SCALE as int, SCALE as int)
                        &&& ray.orig == hit.p
                        &&& ray.time == r_in.time
                        &&& exists|xi: int|
                            0 <= xi < SCALE && v3(ray.dir) == #[trigger] dielectric_choice(
                                self.ior.raw as int,
                                v3(r_in.dir),
                                v3(hit.normal),
                                hit.in_front_face,
                                xi,
                            )
                        &&& (v3(ray.dir) == dirs.0 || v3(ray.dir) == dirs.1)
                        &&& (dielectric_cannot_refract(
                            self.ior.raw as int,
                            v3(r_in.dir),
                            v3(hit.normal),
                            hit.in_front_face,
                        ) ==> v3(ray.dir) == dirs.0)
                    },
                    Scatter::Absorbed => false,
                }
            }),
    {
        let new_color = Color::one();
        let refraction_ratio = if hit.in_front_face() {
            self.ior.recip()
        } else {
            self.ior
        };
        let unit_direction: Vec3 = r_in.direction().unit_vector();
        let cos_theta = Vec3::dot(&unit_direction.neg(), hit.normal()).min_of(Fixed::one());
        let s2 = Fixed::one().minus(cos_theta.times(cos_theta));
        let sin_theta = if s2.is_neg() {
            proof {
                assert(fx_sqrt(s2.raw as int) == 0);
            }
            Fixed::zero()
        } else {
            s2.sqrt()
        };
        let cannot_refract = refraction_ratio.times(sin_theta).gt(Fixed::one());
        let draw = rng.get();
        let reflect = Dielectric::reflectance(cos_theta, refraction_ratio).gt(draw);
        let direction: Vec3 = if cannot_refract || reflect {
            unit_direction.reflect(hit.normal())
        } else {
            unit_direction.refract(hit.normal(), refraction_ratio)
        };
        proof {
            assert(0 <= draw.raw < SCALE && v3(direction) == dielectric_choice(
                self.ior.raw as int,
                v3(r_in.dir),
                v3(hit.normal),
                hit.in_front_face,
                draw.raw as int,
            ));
        }
        let new_ray = Ray::new(hit.p(), &direction, r_in.time());
        Scatter::Scattered(new_ray, new_color)
    }
}

} // verus!
