//! The laws the tracer's components obey, stated and proved against the
//! same models the executable contracts use.

use vstd::prelude::*;

use crate::aabb::aabb_hit;
use crate::bvh::BvhNode;
use crate::fixed::{fx_add, fx_div, fx_neg, fx_sqrt, fx_sub, isqrt, tdiv, SCALE};
use crate::hittable::{det_hit, scan_hits, HitRecord, Hittable};
use crate::ray::ray_at;
use crate::sphere::{sphere_hit, sphere_rec};
use crate::vec3::{v3, vec3f, vsub};

verus! {

/// Ring identity: products regroup pairwise.
proof fn lemma_mul_reorder(p: int, q: int, r: int, s: int)
    ensures
        (p * q) * (r * s) == (p * r) * (q * s),
{
    vstd::arithmetic::mul::lemma_mul_is_associative(p, q, r * s);
    vstd::arithmetic::mul::lemma_mul_is_associative(q, r, s);
    vstd::arithmetic::mul::lemma_mul_is_commutative(q, r);
    vstd::arithmetic::mul::lemma_mul_is_associative(r, q, s);
    vstd::arithmetic::mul::lemma_mul_is_associative(p, r, q * s);
}

/// Ring identity: multiplying a two-term combination by one factor.
proof fn lemma_comb_mul(s: int, t: int, x: int, y: int)
    ensures
        (s * x - t * y) * y == s * (x * y) - t * (y * y),
        (s * x + t * y) * y == s * (x * y) + t * (y * y),
{
    vstd::arithmetic::mul::lemma_mul_is_distributive_sub_other_way(y, s * x, t * y);
    vstd::arithmetic::mul::lemma_mul_is_distributive_add_other_way(y, s * x, t * y);
    vstd::arithmetic::mul::lemma_mul_is_associative(s, x, y);
    vstd::arithmetic::mul::lemma_mul_is_associative(t, y, y);
}

/// Ring identity: a third factor against a two-term combination.
proof fn lemma_comb_mul2(s: int, t: int, x: int, y: int, z: int)
    ensures
        z * (s * x - t * y) == s * (z * x) - t * (z * y),
{
    vstd::arithmetic::mul::lemma_mul_is_distributive_sub(z, s * x, t * y);
    vstd::arithmetic::mul::lemma_mul_is_associative(z, s, x);
    vstd::arithmetic::mul::lemma_mul_is_commutative(z, s);
    vstd::arithmetic::mul::lemma_mul_is_associative(s, z, x);
    vstd::arithmetic::mul::lemma_mul_is_associative(z, t, y);
    vstd::arithmetic::mul::lemma_mul_is_commutative(z, t);
    vstd::arithmetic::mul::lemma_mul_is_associative(t, z, y);
}

/// Ring identity: the square of a two-term combination.
proof fn lemma_comb_square(a: int, b: int, x: int, y: int)
    ensures
        (a * x + b * y) * (a * x + b * y) == a * a * (x * x) + 2 * a * b * (x * y) + b * b * (y
            * y),
{
    let u = a * x;
    let w = b * y;
    vstd::arithmetic::mul::lemma_mul_is_distributive_add(u + w, u, w);
    vstd::arithmetic::mul::lemma_mul_is_distributive_add_other_way(u, u, w);
    vstd::arithmetic::mul::lemma_mul_is_distributive_add_other_way(w, u, w);
    lemma_mul_reorder(a, x, a, x);
    lemma_mul_reorder(a, x, b, y);
    lemma_mul_reorder(b, y, a, x);
    lemma_mul_reorder(b, y, b, y);
    vstd::arithmetic::mul::lemma_mul_is_commutative(b, a);
    vstd::arithmetic::mul::lemma_mul_is_commutative(y, x);
    vstd::arithmetic::mul::lemma_mul_is_associative(2, a * b, x * y);
    vstd::arithmetic::mul::lemma_mul_is_associative(2, a, b);
    assert((b * a) * (y * x) == (a * b) * (x * y));
    assert(u * w + w * u == 2 * ((a * b) * (x * y)));
    assert(2 * a * b * (x * y) == (2 * (a * b)) * (x * y));
    assert(a * a * (x * x) == (a * a) * (x * x));
}

/// Truncating division is monotone in the dividend.
proof fn lemma_tdiv_mono(a: int, b: int, d: int)
    requires
        a <= b,
        d > 0,
    ensures
        tdiv(a, d) <= tdiv(b, d),
{
    if a >= 0 {
        vstd::arithmetic::div_mod::lemma_div_is_ordered(a, b, d);
    } else if b < 0 {
        vstd::arithmetic::div_mod::lemma_div_is_ordered(-b, -a, d);
    } else {
        vstd::arithmetic::div_mod::lemma_div_pos_is_pos(-a, d);
        vstd::arithmetic::div_mod::lemma_div_pos_is_pos(b, d);
    }
}

/// Fixed-point division by a positive scalar is monotone in the dividend.
proof fn lemma_fx_div_mono(a: int, b: int, d: int)
    requires
        a <= b,
        d > 0,
    ensures
        fx_div(a, d) <= fx_div(b, d),
{
    vstd::arithmetic::mul::lemma_mul_inequality(a, b, SCALE as int);
    lemma_tdiv_mono(a * SCALE, b * SCALE, d);
}

/// The two candidate roots of the sphere quadratic are ordered: the
/// "minus" root never exceeds the "plus" root.
proof fn lemma_sphere_roots_ordered(half_b: int, sqrtd: int, a: int)
    requires
        sqrtd >= 0,
        a > 0,
    ensures
        fx_div(fx_sub(fx_neg(half_b), sqrtd), a) <= fx_div(fx_add(fx_neg(half_b), sqrtd), a),
{
    lemma_fx_div_mono(fx_sub(fx_neg(half_b), sqrtd), fx_add(fx_neg(half_b), sqrtd), a);
}

/// The square root of a squared value recovers the value exactly.
pub proof fn lemma_isqrt_square(c: nat)
    ensures
        isqrt(c * c) == c,
{
    assert(c * c <= c * c) by (nonlinear_arith);
    assert((c + 1) * (c + 1) > c * c) by (nonlinear_arith);
    assert(exists|r: nat| #[trigger] (r * r) <= c * c && c * c < (r + 1) * (r + 1)) by {
        assert(c * c <= c * c && c * c < (c + 1) * (c + 1));
    }
    let w = isqrt(c * c);
    assert(w * w <= c * c && c * c < (w + 1) * (w + 1));
    assert(w == c) by (nonlinear_arith)
        requires
            w * w <= c * c,
            c * c < (w + 1) * (w + 1),
    ;
}

/// The law of reflection, at the exact integer level the fixed-point
/// reflection approximates: against a unit normal the reflected direction
/// has its normal component negated and every tangential component kept.
/// The executable `reflect` computes the same quantity with per-component
/// truncation by the fixed-point scale.
#[verifier::rlimit(100)]
pub proof fn law_reflection(v: (int, int, int), n: (int, int, int))
    requires
        n.0 * n.0 + n.1 * n.1 + n.2 * n.2 == (SCALE as int) * (SCALE as int),
    ensures
        ({
            let d = v.0 * n.0 + v.1 * n.1 + v.2 * n.2;
            let ss = (SCALE as int) * (SCALE as int);
            let r = (ss * v.0 - 2 * d * n.0, ss * v.1 - 2 * d * n.1, ss * v.2 - 2 * d * n.2);
            r.0 * n.0 + r.1 * n.1 + r.2 * n.2 == -(ss * d)
        }),
        forall|t: (int, int, int)|
            t.0 * n.0 + t.1 * n.1 + t.2 * n.2 == 0 ==> #[trigger] (t.0 * (((SCALE as int) * (
            SCALE as int)) * v.0 - 2 * (v.0 * n.0 + v.1 * n.1 + v.2 * n.2) * n.0) + t.1 * (((
            SCALE as int) * (SCALE as int)) * v.1 - 2 * (v.0 * n.0 + v.1 * n.1 + v.2 * n.2) * n.1)
                + t.2 * (((SCALE as int) * (SCALE as int)) * v.2 - 2 * (v.0 * n.0 + v.1 * n.1 + v.2
                * n.2) * n.2)) == ((SCALE as int) * (SCALE as int)) * (t.0 * v.0 + t.1 * v.1 + t.2
                * v.2),
{
    let d = v.0 * n.0 + v.1 * n.1 + v.2 * n.2;
    let ss = (SCALE as int) * (SCALE as int);
    lemma_comb_mul(ss, 2 * d, v.0, n.0);
    lemma_comb_mul(ss, 2 * d, v.1, n.1);
    lemma_comb_mul(ss, 2 * d, v.2, n.2);
    assert(2 * d * (n.0 * n.0) + 2 * d * (n.1 * n.1) + 2 * d * (n.2 * n.2) == 2 * d * (n.0 * n.0
        + n.1 * n.1 + n.2 * n.2)) by {
        vstd::arithmetic::mul::lemma_mul_is_distributive_add(2 * d, n.0 * n.0, n.1 * n.1);
        vstd::arithmetic::mul::lemma_mul_is_distributive_add(
            2 * d,
            n.0 * n.0 + n.1 * n.1,
            n.2 * n.2,
        );
    }
    assert(ss * (v.0 * n.0) + ss * (v.1 * n.1) + ss * (v.2 * n.2) == ss * d) by {
        vstd::arithmetic::mul::lemma_mul_is_distributive_add(ss, v.0 * n.0, v.1 * n.1);
        vstd::arithmetic::mul::lemma_mul_is_distributive_add(ss, v.0 * n.0 + v.1 * n.1, v.2 * n.2);
    }
    assert((2 * d) * ss == 2 * (ss * d)) by {
        vstd::arithmetic::mul::lemma_mul_is_associative(2, d, ss);
        vstd::arithmetic::mul::lemma_mul_is_commutative(d, ss);
    }
    assert forall|t: (int, int, int)|
        t.0 * n.0 + t.1 * n.1 + t.2 * n.2 == 0 implies #[trigger] (t.0 * (ss * v.0 - 2 * d * n.0)
        + t.1 * (ss * v.1 - 2 * d * n.1) + t.2 * (ss * v.2 - 2 * d * n.2)) == ss * (t.0 * v.0 + t.1
        * v.1 + t.2 * v.2) by {
        lemma_comb_mul2(ss, 2 * d, v.0, n.0, t.0);
        lemma_comb_mul2(ss, 2 * d, v.1, n.1, t.1);
        lemma_comb_mul2(ss, 2 * d, v.2, n.2, t.2);
        assert(ss * (t.0 * v.0) + ss * (t.1 * v.1) + ss * (t.2 * v.2) == ss * (t.0 * v.0 + t.1
            * v.1 + t.2 * v.2)) by {
            vstd::arithmetic::mul::lemma_mul_is_distributive_add(ss, t.0 * v.0, t.1 * v.1);
            vstd::arithmetic::mul::lemma_mul_is_distributive_add(
                ss,
                t.0 * v.0 + t.1 * v.1,
                t.2 * v.2,
            );
        }
        assert(2 * d * (t.0 * n.0) + 2 * d * (t.1 * n.1) + 2 * d * (t.2 * n.2) == 2 * d * (t.0
            * n.0 + t.1 * n.1 + t.2 * n.2)) by {
            vstd::arithmetic::mul::lemma_mul_is_distributive_add(2 * d, t.0 * n.0, t.1 * n.1);
            vstd::arithmetic::mul::lemma_mul_is_distributive_add(
                2 * d,
                t.0 * n.0 + t.1 * n.1,
                t.2 * n.2,
            );
        }
    }
}

/// Refraction at equal indices is the identity, at the exact integer
/// level: with a unit incident direction and unit normal (common squared
/// norm `k`), the perpendicular part's squared magnitude leaves exactly
/// the squared cosine for the parallel part, and adding the parallel part
/// restores the incident direction scaled by `k`.
#[verifier::rlimit(100)]
pub proof fn law_refraction_identity(v: (int, int, int), n: (int, int, int), k: int)
    requires
        v.0 * v.0 + v.1 * v.1 + v.2 * v.2 == k,
        n.0 * n.0 + n.1 * n.1 + n.2 * n.2 == k,
    ensures
        ({
            let c = -(v.0 * n.0 + v.1 * n.1 + v.2 * n.2);
            let p = (k * v.0 + c * n.0, k * v.1 + c * n.1, k * v.2 + c * n.2);
            p.0 * p.0 + p.1 * p.1 + p.2 * p.2 == k * (k * k - c * c)
        }),
        ({
            let c = -(v.0 * n.0 + v.1 * n.1 + v.2 * n.2);
            ((k * v.0 + c * n.0) - c * n.0, (k * v.1 + c * n.1) - c * n.1, (k * v.2 + c * n.2) - c
                * n.2) == (k * v.0, k * v.1, k * v.2)
        }),
{
    let c = -(v.0 * n.0 + v.1 * n.1 + v.2 * n.2);
    lemma_comb_square(k, c, v.0, n.0);
    lemma_comb_square(k, c, v.1, n.1);
    lemma_comb_square(k, c, v.2, n.2);
    assert(k * k * (v.0 * v.0) + k * k * (v.1 * v.1) + k * k * (v.2 * v.2) == k * k * k) by {
        vstd::arithmetic::mul::lemma_mul_is_distributive_add(k * k, v.0 * v.0, v.1 * v.1);
        vstd::arithmetic::mul::lemma_mul_is_distributive_add(
            k * k,
            v.0 * v.0 + v.1 * v.1,
            v.2 * v.2,
        );
        vstd::arithmetic::mul::lemma_mul_is_associative(k, k, k);
    }
    assert(2 * k * c * (v.0 * n.0) + 2 * k * c * (v.1 * n.1) + 2 * k * c * (v.2 * n.2) == 2 * k * c
        * (-c)) by {
        vstd::arithmetic::mul::lemma_mul_is_distributive_add(2 * k * c, v.0 * n.0, v.1 * n.1);
        vstd::arithmetic::mul::lemma_mul_is_distributive_add(
            2 * k * c,
            v.0 * n.0 + v.1 * n.1,
            v.2 * n.2,
        );
    }
    assert(c * c * (n.0 * n.0) + c * c * (n.1 * n.1) + c * c * (n.2 * n.2) == c * c * k) by {
        vstd::arithmetic::mul::lemma_mul_is_distributive_add(c * c, n.0 * n.0, n.1 * n.1);
        vstd::arithmetic::mul::lemma_mul_is_distributive_add(
            c * c,
            n.0 * n.0 + n.1 * n.1,
            n.2 * n.2,
        );
    }
    assert(k * k * k + 2 * k * c * (-c) + c * c * k == k * (k * k - c * c)) by {
        vstd::arithmetic::mul::lemma_mul_is_distributive_sub(k, k * k, c * c);
        vstd::arithmetic::mul::lemma_mul_is_commutative(k * k, k);
        vstd::arithmetic::mul::lemma_mul_unary_negation((2 * k) * c, c);
        vstd::arithmetic::mul::lemma_mul_is_associative(2 * k, c, c);
        vstd::arithmetic::mul::lemma_mul_is_associative(2, k, c * c);
        vstd::arithmetic::mul::lemma_mul_is_commutative(c * c, k);
    }
}

/// The fuzz-free metal obeys the mirror law operationally: whenever the
/// exact mirror reflection leaves the surface, scattering cannot absorb
/// and returns exactly that direction with the metal's own attenuation.
pub proof fn law_metal_mirror(
    m: crate::metal::Metal,
    r_in: crate::ray::Ray,
    hit: HitRecord,
    s: crate::material::Scatter,
)
    requires
        crate::material::scatter_ok(crate::material::Material::Metal(m), r_in, hit, s),
        m.fuzz.raw == 0,
        crate::vec3::vdot(
            crate::metal::metal_reflect_dir(v3(r_in.dir), v3(hit.normal)),
            v3(hit.normal),
        ) > 0,
    ensures
        s matches crate::material::Scatter::Scattered(ray, col) && v3(ray.dir)
            == crate::metal::metal_reflect_dir(v3(r_in.dir), v3(hit.normal)) && v3(col) == v3(
            m.albedo,
        ),
{
}

/// A sphere interaction carries the analytic root: whenever the sphere
/// test reports a hit, its parameter is one of the two quadratic roots,
/// it lies inside the queried interval, and the hit point and outward
/// normal are derived from that root exactly as the model states.
pub proof fn law_sphere_hit_root(
    center: (int, int, int),
    radius: int,
    mat: int,
    orig: (int, int, int),
    dir: (int, int, int),
    time: int,
    t_min: int,
    t_max: int,
    rec: HitRecord,
)
    requires
        sphere_hit(center, radius, mat, orig, dir, time, t_min, t_max) == Some(rec),
    ensures
        ({
            let oc = vsub(orig, center);
            let a = crate::vec3::vlen2(dir);
            let half_b = crate::vec3::vdot(oc, dir);
            let c = fx_sub(crate::vec3::vlen2(oc), crate::fixed::fx_mul(radius, radius));
            let discriminant = fx_sub(
                crate::fixed::fx_mul(half_b, half_b),
                crate::fixed::fx_mul(a, c),
            );
            let sqrtd = fx_sqrt(discriminant);
            let root1 = fx_div(fx_sub(fx_neg(half_b), sqrtd), a);
            let root2 = fx_div(fx_add(fx_neg(half_b), sqrtd), a);
            &&& (rec.t.raw as int == root1 || rec.t.raw as int == root2)
            &&& t_min <= rec.t.raw as int <= t_max
            &&& rec.p == vec3f(ray_at(orig, dir, rec.t.raw as int))
            &&& rec == sphere_rec(center, radius, mat, orig, dir, rec.t.raw as int)
        }),
{
}

/// The primitives whose interval-narrowing soundness is proven here: the
/// leaf shapes (spheres and the three rectangle orientations) and any
/// chain of translate/rotate decorators over them.
pub open spec fn narrowable(h: Hittable) -> bool
    decreases h,
{
    match h {
        Hittable::Sphere(_) => true,
        Hittable::XyRect(_) => true,
        Hittable::YzRect(_) => true,
        Hittable::ZxRect(_) => true,
        Hittable::Translate(t) => narrowable(*t.source),
        Hittable::RotateY(t) => narrowable(*t.source),
        _ => false,
    }
}

/// Interval narrowing soundness for the leaf primitives (spheres and the
/// three rectangle orientations) and their decorator chains:
/// - a reported hit whose parameter survives a tightened upper bound is
///   reported unchanged for the tightened query, and
/// - a hit reported for a tightened query implies the wider query
///   reports one at most as far.
#[verifier::rlimit(100)]
pub proof fn lemma_leaf_hit_narrowing(
    h: Hittable,
    orig: (int, int, int),
    dir: (int, int, int),
    time: int,
    t_min: int,
    tp: int,
    t_max: int,
)
    requires
        narrowable(h),
        t_min <= tp <= t_max,
    ensures
        (match det_hit(h, orig, dir, time, t_min, t_max) {
            Some(rec) => rec.t.raw <= tp ==> det_hit(h, orig, dir, time, t_min, tp) == Some(rec),
            None => true,
        }),
        (match det_hit(h, orig, dir, time, t_min, tp) {
            Some(rec) => match det_hit(h, orig, dir, time, t_min, t_max) {
                Some(h2) => h2.t.raw <= rec.t.raw,
                None => false,
            },
            None => true,
        }),
        (match det_hit(h, orig, dir, time, t_min, tp) {
            Some(rec) => t_min <= rec.t.raw <= tp,
            None => true,
        }),
    decreases h,
{
    reveal(crate::hittable::det_hit);
    match h {
        Hittable::Sphere(s) => {
            let oc = vsub(orig, center_of(s));
            let a = crate::vec3::vlen2(dir);
            let half_b = crate::vec3::vdot(oc, dir);
            let sqrtd = fx_sqrt(
                fx_sub(
                    crate::fixed::fx_mul(half_b, half_b),
                    crate::fixed::fx_mul(
                        a,
                        fx_sub(
                            crate::vec3::vlen2(oc),
                            crate::fixed::fx_mul(s.radius.raw as int, s.radius.raw as int),
                        ),
                    ),
                ),
            );
            crate::vec3::lemma_vlen2_nonneg(dir);
            if a != 0 {
                lemma_sphere_roots_ordered(half_b, sqrtd, a);
            }
        },
        Hittable::Translate(t) => {
            lemma_leaf_hit_narrowing(
                *t.source,
                vsub(orig, v3(t.offset)),
                dir,
                time,
                t_min,
                tp,
                t_max,
            );
        },
        Hittable::RotateY(t) => {
            lemma_leaf_hit_narrowing(
                *t.source,
                crate::hittable::rot_to_local(orig, t.sin_theta.raw as int, t.cos_theta.raw as int),
                crate::hittable::rot_to_local(dir, t.sin_theta.raw as int, t.cos_theta.raw as int),
                time,
                t_min,
                tp,
                t_max,
            );
        },
        _ => {},
    }
}

spec fn center_of(s: crate::sphere::Sphere) -> (int, int, int) {
    v3(s.center)
}

/// The traversal equation of a two-child node, kept in one place so the
/// surrounding argument can treat the children's queries as opaque values.
proof fn lemma_det_hit_bvh_unfold(
    n: BvhNode,
    rc: Box<Hittable>,
    orig: (int, int, int),
    dir: (int, int, int),
    time: int,
    t_min: int,
    t_max: int,
)
    requires
        n.right == Some(rc),
    ensures
        det_hit(Hittable::Bvh(n), orig, dir, time, t_min, t_max) == (if !aabb_hit(
            v3(n.aabb.minimum),
            v3(n.aabb.maximum),
            orig,
            dir,
            t_min,
            t_max,
        ) {
            None
        } else {
            let hit_left = det_hit(*n.left, orig, dir, time, t_min, t_max);
            let new_t_max = match hit_left {
                Some(hl) => hl.t.raw as int,
                None => t_max,
            };
            match det_hit(*rc, orig, dir, time, t_min, new_t_max) {
                Some(hr) => Some(hr),
                None => hit_left,
            }
        }),
{
    reveal(crate::hittable::det_hit);
}

/// The nearest-hit scan over exactly two primitives, written out.
#[verifier::rlimit(100)]
#[verifier::spinoff_prover]
proof fn lemma_scan_two(
    a: Hittable,
    b: Hittable,
    orig: (int, int, int),
    dir: (int, int, int),
    time: int,
    t_min: int,
    t_max: int,
)
    ensures
        scan_hits(seq![a, b], orig, dir, time, t_min, t_max, 0, t_max, None) == (match det_hit(
            a,
            orig,
            dir,
            time,
            t_min,
            t_max,
        ) {
            Some(ha) => if ha.t.raw < t_max {
                match det_hit(b, orig, dir, time, t_min, t_max) {
                    Some(hb) => if hb.t.raw < ha.t.raw {
                        Some(hb)
                    } else {
                        Some(ha)
                    },
                    None => Some(ha),
                }
            } else {
                match det_hit(b, orig, dir, time, t_min, t_max) {
                    Some(hb) => if hb.t.raw < t_max {
                        Some(hb)
                    } else {
                        None
                    },
                    None => None,
                }
            },
            None => match det_hit(b, orig, dir, time, t_min, t_max) {
                Some(hb) => if hb.t.raw < t_max {
                    Some(hb)
                } else {
                    None
                },
                None => None,
            },
        }),
{
    reveal_with_fuel(crate::hittable::scan_hits, 4);
    let objs = seq![a, b];
    assert(objs.len() == 2 && objs[0] == a && objs[1] == b);
}

/// The hierarchy node agrees with the brute-force scan of its two
/// children: under box coverage (a missed node box means neither child
/// hits), strict hits (no hit exactly at the queried upper bound), no tie
/// between the children's hit parameters, and the interval-narrowing
/// soundness of the right child, traversing the node yields exactly the
/// nearest-hit scan over the pair.
#[verifier::rlimit(100)]
pub proof fn law_bvh_node_matches_scan(
    n: BvhNode,
    rc: Box<Hittable>,
    orig: (int, int, int),
    dir: (int, int, int),
    time: int,
    t_min: int,
    t_max: int,
)
    requires
        n.right == Some(rc),
        // Coverage: the node box is conservative for this query.
        !aabb_hit(v3(n.aabb.minimum), v3(n.aabb.maximum), orig, dir, t_min, t_max) ==> det_hit(
            *n.left,
            orig,
            dir,
            time,
            t_min,
            t_max,
        ) is None && det_hit(*rc, orig, dir, time, t_min, t_max) is None,
        // Reported hits lie inside the interval, strictly below its top.
        (match det_hit(*n.left, orig, dir, time, t_min, t_max) {
            Some(hl) => t_min <= hl.t.raw < t_max,
            None => true,
        }),
        (match det_hit(*rc, orig, dir, time, t_min, t_max) {
            Some(hr) => t_min <= hr.t.raw < t_max,
            None => true,
        }),
        // No tie between the children's hit parameters.
        (match (
            det_hit(*n.left, orig, dir, time, t_min, t_max),
            det_hit(*rc, orig, dir, time, t_min, t_max),
        ) {
            (Some(hl), Some(hr)) => hl.t.raw != hr.t.raw,
            _ => true,
        }),
        // Narrowing soundness of the right child.
        forall|tp: int|
            t_min <= tp <= t_max ==> (match det_hit(*rc, orig, dir, time, t_min, t_max) {
                Some(rec) => rec.t.raw <= tp ==> #[trigger] det_hit(*rc, orig, dir, time, t_min, tp)
                    == Some(rec),
                None => true,
            }),
        forall|tp: int|
            t_min <= tp <= t_max ==> (match #[trigger] det_hit(*rc, orig, dir, time, t_min, tp) {
                Some(rec) => match det_hit(*rc, orig, dir, time, t_min, t_max) {
                    Some(h2) => h2.t.raw <= rec.t.raw,
                    None => false,
                },
                None => true,
            }),
        forall|tp: int|
            t_min <= tp <= t_max ==> (match #[trigger] det_hit(*rc, orig, dir, time, t_min, tp) {
                Some(rec) => t_min <= rec.t.raw <= tp,
                None => true,
            }),
    ensures
        det_hit(Hittable::Bvh(n), orig, dir, time, t_min, t_max) == scan_hits(
            seq![*n.left, *rc],
            orig,
            dir,
            time,
            t_min,
            t_max,
            0,
            t_max,
            None,
        ),
{
    lemma_det_hit_bvh_unfold(n, rc, orig, dir, time, t_min, t_max);
    lemma_scan_two(*n.left, *rc, orig, dir, time, t_min, t_max);
    let hl = det_hit(*n.left, orig, dir, time, t_min, t_max);
    let hr = det_hit(*rc, orig, dir, time, t_min, t_max);
    if !aabb_hit(v3(n.aabb.minimum), v3(n.aabb.maximum), orig, dir, t_min, t_max) {
    } else {
        match hl {
            None => {
                match hr {
                    None => {
                        assert(det_hit(*rc, orig, dir, time, t_min, t_max) is None);
                    },
                    Some(hrr) => {
                        assert(det_hit(Hittable::Bvh(n), orig, dir, time, t_min, t_max) == Some(
                            hrr,
                        ));
                    },
                }
            },
            Some(hll) => {
                match hr {
                    None => {
                        // A narrowed right query cannot report what the full
                        // query missed.
                        if det_hit(*rc, orig, dir, time, t_min, hll.t.raw as int) is Some {
                            let x = det_hit(
                                *rc,
                                orig,
                                dir,
                                time,
                                t_min,
                                hll.t.raw as int,
                            )->Some_0;
                            assert(det_hit(*rc, orig, dir, time, t_min, hll.t.raw as int) == Some(
                                x,
                            ));
                            assert(false);
                        }
                    },
                    Some(hrr) => {
                        if hrr.t.raw < hll.t.raw {
                            assert(det_hit(*rc, orig, dir, time, t_min, hll.t.raw as int) == Some(
                                hrr,
                            ));
                        } else {
                            assert(hrr.t.raw > hll.t.raw);
                            if det_hit(*rc, orig, dir, time, t_min, hll.t.raw as int) is Some {
                                let x = det_hit(
                                    *rc,
                                    orig,
                                    dir,
                                    time,
                                    t_min,
                                    hll.t.raw as int,
                                )->Some_0;
                                assert(det_hit(*rc, orig, dir, time, t_min, hll.t.raw as int)
                                    == Some(x));
                                assert(hrr.t.raw <= x.t.raw);
                                assert(x.t.raw <= hll.t.raw);
                                assert(false);
                            }
                        }
                    },
                }
            },
        }
    }
}

/// The node-versus-scan law with the narrowing obligations discharged:
/// for a node whose children are leaf shapes (possibly under decorator
/// chains), only geometric coverage, strictness at the interval's top and
/// freedom from parameter ties remain as hypotheses.
pub proof fn law_bvh_node_matches_scan_leaves(
    n: BvhNode,
    rc: Box<Hittable>,
    orig: (int, int, int),
    dir: (int, int, int),
    time: int,
    t_min: int,
    t_max: int,
)
    requires
        n.right == Some(rc),
        narrowable(*n.left),
        narrowable(*rc),
        t_min <= t_max,
        // Coverage: the node box is conservative for this query.
        !aabb_hit(v3(n.aabb.minimum), v3(n.aabb.maximum), orig, dir, t_min, t_max) ==> det_hit(
            *n.left,
            orig,
            dir,
            time,
            t_min,
            t_max,
        ) is None && det_hit(*rc, orig, dir, time, t_min, t_max) is None,
        // No hit exactly at the interval's top.
        (match det_hit(*n.left, orig, dir, time, t_min, t_max) {
            Some(hl) => hl.t.raw < t_max,
            None => true,
        }),
        (match det_hit(*rc, orig, dir, time, t_min, t_max) {
            Some(hr) => hr.t.raw < t_max,
            None => true,
        }),
        // No tie between the children's hit parameters.
        (match (
            det_hit(*n.left, orig, dir, time, t_min, t_max),
            det_hit(*rc, orig, dir, time, t_min, t_max),
        ) {
            (Some(hl), Some(hr)) => hl.t.raw != hr.t.raw,
            _ => true,
        }),
    ensures
        det_hit(Hittable::Bvh(n), orig, dir, time, t_min, t_max) == scan_hits(
            seq![*n.left, *rc],
            orig,
            dir,
            time,
            t_min,
            t_max,
            0,
            t_max,
            None,
        ),
{
    lemma_leaf_hit_narrowing(*n.left, orig, dir, time, t_min, t_max, t_max);
    lemma_leaf_hit_narrowing(*rc, orig, dir, time, t_min, t_max, t_max);
    assert forall|tp: int| t_min <= tp <= t_max implies (match det_hit(
        *rc,
        orig,
        dir,
        time,
        t_min,
        t_max,
    ) {
        Some(rec) => rec.t.raw <= tp ==> #[trigger] det_hit(*rc, orig, dir, time, t_min, tp)
            == Some(rec),
        None => true,
    }) by {
        lemma_leaf_hit_narrowing(*rc, orig, dir, time, t_min, tp, t_max);
    }
    assert forall|tp: int| t_min <= tp <= t_max implies (match #[trigger] det_hit(
        *rc,
        orig,
        dir,
        time,
        t_min,
        tp,
    ) {
        Some(rec) => match det_hit(*rc, orig, dir, time, t_min, t_max) {
            Some(h2) => h2.t.raw <= rec.t.raw,
            None => false,
        },
        None => true,
    }) by {
        lemma_leaf_hit_narrowing(*rc, orig, dir, time, t_min, tp, t_max);
    }
    assert forall|tp: int| t_min <= tp <= t_max implies (match #[trigger] det_hit(
        *rc,
        orig,
        dir,
        time,
        t_min,
        tp,
    ) {
        Some(rec) => t_min <= rec.t.raw <= tp,
        None => true,
    }) by {
        lemma_leaf_hit_narrowing(*rc, orig, dir, time, t_min, tp, t_max);
    }
    law_bvh_node_matches_scan(n, rc, orig, dir, time, t_min, t_max);
}

} // verus!
