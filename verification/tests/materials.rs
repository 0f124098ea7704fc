//! Material scattering checks: the mirror law for fuzz-free metal, the
//! identity refraction at equal indices, total internal reflection at
//! grazing incidence, and the emission model.

use rt_weekend::dielectric::Dielectric;
use rt_weekend::fixed::{Fixed, SCALE};
use rt_weekend::hittable::HitRecord;
use rt_weekend::lambertian::Lambertian;
use rt_weekend::material::{Material, Scatter};
use rt_weekend::metal::Metal;
use rt_weekend::ray::Ray;
use rt_weekend::rng_float::RngGen;
use rt_weekend::vec3::Vec3;

fn fx(v: i64) -> Fixed {
    Fixed::from_int(v)
}

fn v3i(x: i64, y: i64, z: i64) -> Vec3 {
    Vec3::new(fx(x), fx(y), fx(z))
}

fn to_f64(x: Fixed) -> f64 {
    x.raw() as f64 / SCALE as f64
}

fn flat_hit(normal: Vec3) -> HitRecord {
    HitRecord::from_settings(
        v3i(0, 0, 0),
        normal,
        0,
        fx(1),
        Fixed::zero(),
        Fixed::zero(),
        true,
    )
}

#[test]
fn metal_zero_fuzz_obeys_mirror_law() {
    let m = Metal::new(Vec3::one(), Fixed::zero());
    // Incoming at 45 degrees onto the floor plane with normal +y.
    let r_in = Ray::new(&v3i(-1, 1, 0), &v3i(1, -1, 0), Fixed::zero());
    let hit = flat_hit(v3i(0, 1, 0));
    let mut rng = RngGen::new_seeded(3);
    match m.scatter(&r_in, &hit, &mut rng) {
        Scatter::Scattered(ray, _) => {
            let d = *ray.direction();
            // Angle of incidence equals angle of reflection: the y
            // component flips, x is kept (up to fixed-point rounding of
            // the unit scaling).
            assert!((to_f64(d.x()) - to_f64(d.y())).abs() < 1e-4);
            assert!(to_f64(d.y()) > 0.0);
            assert!(to_f64(d.z()).abs() < 1e-6);
        }
        Scatter::Absorbed => panic!("mirror reflection was absorbed"),
    }
}

#[test]
fn metal_clamps_roughness_into_unit_range() {
    // A negative roughness clamps to zero, so scattering is the exact
    // mirror reflection; an oversized roughness clamps to one.
    let m = Metal::new(Vec3::one(), Fixed::from_int(-3));
    assert_eq!(m.fuzz.raw(), 0);
    let hi = Metal::new(Vec3::one(), Fixed::from_int(7));
    assert_eq!(hi.fuzz.raw(), Fixed::one().raw());
    let r_in = Ray::new(&v3i(-1, 1, 0), &v3i(1, -1, 0), Fixed::zero());
    let hit = flat_hit(v3i(0, 1, 0));
    let mut rng = RngGen::new_seeded(21);
    match m.scatter(&r_in, &hit, &mut rng) {
        Scatter::Scattered(ray, _) => {
            let u = r_in.direction().unit_vector();
            let refl = u.reflect(&v3i(0, 1, 0));
            assert_eq!(ray.direction().x().raw(), refl.x().raw());
            assert_eq!(ray.direction().y().raw(), refl.y().raw());
            assert_eq!(ray.direction().z().raw(), refl.z().raw());
        }
        Scatter::Absorbed => panic!("mirror reflection was absorbed"),
    }
}

#[test]
fn metal_absorbs_grazing_into_surface() {
    let m = Metal::new(Vec3::one(), Fixed::zero());
    // Reflecting off the back side: the reflected ray points into the
    // surface and is absorbed.
    let r_in = Ray::new(&v3i(-1, 1, 0), &v3i(1, -1, 0), Fixed::zero());
    let hit = flat_hit(v3i(0, -1, 0));
    let mut rng = RngGen::new_seeded(3);
    match m.scatter(&r_in, &hit, &mut rng) {
        Scatter::Scattered(_, _) => panic!("scattered into the surface"),
        Scatter::Absorbed => {}
    }
}

#[test]
fn refract_identity_at_equal_indices() {
    // With ratio 1 the refracted direction equals the incident direction.
    let v = Vec3::new(Fixed::zero(), Fixed::from_ratio(-4, 5), Fixed::from_ratio(3, 5));
    let n = v3i(0, 1, 0);
    let out = v.refract(&n, Fixed::one());
    assert!((to_f64(out.x()) - to_f64(v.x())).abs() < 1e-4);
    assert!((to_f64(out.y()) - to_f64(v.y())).abs() < 1e-4);
    assert!((to_f64(out.z()) - to_f64(v.z())).abs() < 1e-4);
}

#[test]
fn dielectric_total_internal_reflection_at_grazing() {
    // Leaving glass (back face, ratio = 1.5) at grazing incidence:
    // sin(theta) > 1/1.5, so the ray must reflect, never refract.
    let d = Dielectric::new(Fixed::from_ratio(3, 2));
    let dir = Vec3::new(Fixed::from_ratio(99, 100), Fixed::from_ratio(-14, 100), Fixed::zero());
    let r_in = Ray::new(&v3i(0, 1, 0), &dir, Fixed::zero());
    let hit = HitRecord::from_settings(
        v3i(0, 0, 0),
        v3i(0, 1, 0),
        0,
        fx(1),
        Fixed::zero(),
        Fixed::zero(),
        false,
    );
    let mut rng = RngGen::new_seeded(11);
    for _ in 0..32 {
        match d.scatter(&r_in, &hit, &mut rng) {
            Scatter::Scattered(ray, att) => {
                // The reflection flips the y component's sign.
                let u = r_in.direction().unit_vector();
                let refl = u.reflect(&v3i(0, 1, 0));
                let got = *ray.direction();
                assert!((to_f64(got.x()) - to_f64(refl.x())).abs() < 1e-6);
                assert!((to_f64(got.y()) - to_f64(refl.y())).abs() < 1e-6);
                assert!((to_f64(att.x()) - 1.0).abs() < 1e-9);
            }
            Scatter::Absorbed => panic!("dielectric never absorbs"),
        }
    }
}

#[test]
fn lambertian_always_scatters_from_hit_point() {
    let m = Lambertian::new_from_color(Vec3::one());
    let r_in = Ray::new(&v3i(0, 2, 0), &v3i(0, -1, 0), Fixed::from_ratio(1, 4));
    let hit = flat_hit(v3i(0, 1, 0));
    let mut rng = RngGen::new_seeded(5);
    for _ in 0..16 {
        match m.scatter(&r_in, &hit, &mut rng) {
            Scatter::Scattered(ray, col) => {
                assert_eq!(ray.origin().x().raw(), 0);
                assert_eq!(ray.time().raw(), Fixed::from_ratio(1, 4).raw());
                assert_eq!(col.x().raw(), SCALE);
            }
            Scatter::Absorbed => panic!("diffuse surface absorbed"),
        }
    }
}

#[test]
fn lights_absorb_and_emit() {
    let white = Vec3::one();
    let light = Material::DiffuseLight(rt_weekend::diffuse_light::DiffuseLight::new_from_color(
        &white,
    ));
    let r_in = Ray::new(&v3i(0, 2, 0), &v3i(0, -1, 0), Fixed::zero());
    let hit = flat_hit(v3i(0, 1, 0));
    let mut rng = RngGen::new_seeded(9);
    match light.scatter(&r_in, &hit, &mut rng) {
        Scatter::Absorbed => {}
        _ => panic!("light must absorb"),
    }
    let e = light.emitted(Fixed::zero(), Fixed::zero(), &v3i(0, 0, 0));
    assert_eq!(e.x().raw(), SCALE);
    let lamb = Material::Lambertian(Lambertian::new_from_color(white));
    let e2 = lamb.emitted(Fixed::zero(), Fixed::zero(), &v3i(0, 0, 0));
    assert_eq!(e2.x().raw(), 0);
}
