//! Geometry checks: sphere intersection against the analytic root, box
//! union and slab-test behaviour, and the hierarchy against a brute-force
//! scan.

use rt_weekend::aabb::AABB;
use rt_weekend::bvh::BVH;
use rt_weekend::fixed::{Fixed, SCALE};
use rt_weekend::hittable::Hittable;
use rt_weekend::hittable_list::HittableList;
use rt_weekend::ray::Ray;
use rt_weekend::rng_float::RngGen;
use rt_weekend::sphere::Sphere;
use rt_weekend::vec3::Vec3;

fn fx(v: i64) -> Fixed {
    Fixed::from_int(v)
}

fn v3i(x: i64, y: i64, z: i64) -> Vec3 {
    Vec3::new(fx(x), fx(y), fx(z))
}

fn to_f64(x: Fixed) -> f64 {
    x.raw() as f64 / SCALE as f64
}

#[test]
fn sphere_hit_matches_analytic_root() {
    // Unit sphere at the origin; ray from (0,0,-3) along +z enters at
    // t = 2 with outward normal (0,0,-1).
    let s = Sphere::new(v3i(0, 0, 0), fx(1), 0);
    let r = Ray::new(&v3i(0, 0, -3), &v3i(0, 0, 1), Fixed::zero());
    let hit = s.hit(&r, Fixed::zero(), Fixed::infinity()).unwrap();
    assert!((to_f64(hit.t()) - 2.0).abs() < 1e-6);
    let n = *hit.normal();
    assert!((to_f64(n.z()) + 1.0).abs() < 1e-6);
    assert!(to_f64(n.x()).abs() < 1e-6 && to_f64(n.y()).abs() < 1e-6);
    // Unit length within tolerance.
    let len = to_f64(n.length());
    assert!((len - 1.0).abs() < 1e-4);
    assert!(hit.in_front_face());
}

#[test]
fn sphere_prefers_near_root_then_far() {
    let s = Sphere::new(v3i(0, 0, 0), fx(1), 0);
    let r = Ray::new(&v3i(0, 0, -3), &v3i(0, 0, 1), Fixed::zero());
    // Excluding the near root t=2 selects the far root t=4.
    let hit = s.hit(&r, fx(3), Fixed::infinity()).unwrap();
    assert!((to_f64(hit.t()) - 4.0).abs() < 1e-6);
    assert!(!hit.in_front_face());
    // Excluding both roots reports no hit.
    assert!(s.hit(&r, fx(5), Fixed::infinity()).is_none());
}

#[test]
fn joint_box_contains_both_and_is_tight() {
    let a = AABB::new(v3i(-1, -2, -3), v3i(1, 0, 0));
    let b = AABB::new(v3i(0, -1, -5), v3i(2, 3, 1));
    let j = AABB::joint_box(&a, &b);
    assert_eq!(j.min().x().raw(), fx(-1).raw());
    assert_eq!(j.min().y().raw(), fx(-2).raw());
    assert_eq!(j.min().z().raw(), fx(-5).raw());
    assert_eq!(j.max().x().raw(), fx(2).raw());
    assert_eq!(j.max().y().raw(), fx(3).raw());
    assert_eq!(j.max().z().raw(), fx(1).raw());
}

#[test]
fn aabb_slab_test_hits_and_misses() {
    let bx = AABB::new(v3i(-1, -1, -1), v3i(1, 1, 1));
    let hit_ray = Ray::new(&v3i(0, 0, -3), &v3i(0, 0, 1), Fixed::zero());
    assert!(bx.hit(&hit_ray, Fixed::zero(), Fixed::infinity()));
    // A ray that misses on the x axis alone misses overall.
    let miss_ray = Ray::new(&v3i(5, 0, -3), &v3i(0, 0, 1), Fixed::zero());
    assert!(!bx.hit(&miss_ray, Fixed::zero(), Fixed::infinity()));
    // A parallel ray far outside one slab misses too.
    let side_ray = Ray::new(&v3i(0, 5, -3), &v3i(0, 0, 1), Fixed::zero());
    assert!(!bx.hit(&side_ray, Fixed::zero(), Fixed::infinity()));
}

#[test]
fn bvh_agrees_with_linear_scan() {
    let centers = [
        (0i64, 0i64, -4i64),
        (2, 0, -6),
        (-2, 1, -8),
        (1, -1, -10),
        (0, 2, -5),
    ];
    let mut list = HittableList::new();
    for (i, c) in centers.iter().enumerate() {
        list.add(Hittable::Sphere(Sphere::new(v3i(c.0, c.1, c.2), fx(1), i)));
    }
    let mut bvh_list = HittableList::new();
    for (i, c) in centers.iter().enumerate() {
        bvh_list.add(Hittable::Sphere(Sphere::new(v3i(c.0, c.1, c.2), fx(1), i)));
    }
    let mut rng = RngGen::new_seeded(7);
    let bvh = BVH::new(&mut bvh_list, Fixed::zero(), Fixed::one(), &mut rng).into_hittable();
    let flat = Hittable::List(list);
    for ix in -4..5i64 {
        for iy in -4..5i64 {
            let dir = Vec3::new(
                Fixed::from_ratio(ix, 8),
                Fixed::from_ratio(iy, 8),
                fx(-1),
            );
            let r = Ray::new(&v3i(0, 0, 0), &dir, Fixed::zero());
            let h1 = flat.hit(&r, Fixed::from_ratio(1, 1000), Fixed::infinity(), &mut rng);
            let h2 = bvh.hit(&r, Fixed::from_ratio(1, 1000), Fixed::infinity(), &mut rng);
            match (h1, h2) {
                (None, None) => {}
                (Some(a), Some(b)) => {
                    assert_eq!(a.t().raw(), b.t().raw());
                    assert_eq!(a.mat(), b.mat());
                }
                _ => panic!("hierarchy and scan disagree"),
            }
        }
    }
}

#[test]
fn translate_preserves_back_face_flag() {
    // A ray starting inside a translated sphere exits through a
    // back-face hit; the decorator keeps the child's front-face flag and
    // shading normal.
    let s = Sphere::new(v3i(0, 0, 0), fx(2), 0);
    let t = Hittable::Translate(rt_weekend::translate::Translate::new(
        Box::new(Hittable::Sphere(s)),
        v3i(0, 0, -4),
    ));
    let r = Ray::new(&v3i(0, 0, -4), &v3i(0, 0, 1), Fixed::zero());
    let mut rng = RngGen::new_seeded(2);
    let hit = t.hit(&r, Fixed::zero(), Fixed::infinity(), &mut rng).unwrap();
    assert!((to_f64(hit.t()) - 2.0).abs() < 1e-6);
    assert!(!hit.in_front_face());
    assert!((to_f64(hit.normal().z()) + 1.0).abs() < 1e-4);
    assert!((to_f64(hit.p().z()) + 2.0).abs() < 1e-6);
}

#[test]
fn translate_shifts_interaction() {
    let s = Sphere::new(v3i(0, 0, 0), fx(1), 0);
    let t = Hittable::Translate(rt_weekend::translate::Translate::new(
        Box::new(Hittable::Sphere(s)),
        v3i(0, 0, -4),
    ));
    let r = Ray::new(&v3i(0, 0, 0), &v3i(0, 0, -1), Fixed::zero());
    let mut rng = RngGen::new_seeded(1);
    let hit = t.hit(&r, Fixed::zero(), Fixed::infinity(), &mut rng).unwrap();
    assert!((to_f64(hit.t()) - 3.0).abs() < 1e-6);
    assert!((to_f64(hit.p().z()) + 3.0).abs() < 1e-6);
}
