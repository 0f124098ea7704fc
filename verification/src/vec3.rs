//! Three-component vectors over the fixed-point scalar, used both as points
//! and as colors.  Every operation has an exact integer model: `v3` maps a
//! vector to the triple of raw component values, and the `v*` spec functions
//! mirror each executable operation on those triples.

use vstd::prelude::*;

use crate::fixed::{
    fx_abs, fx_add, fx_div, fx_mul, fx_neg, fx_sqrt, fx_sub, Fixed, SCALE,
};

verus! {

/// Componentwise near-zero threshold in raw units, about 1e-8.
pub const NEAR_ZERO_RAW: i64 = 11;

#[derive(Clone, Copy, PartialEq, Eq, Structural, Debug)]
pub struct Vec3 {
    pub x: Fixed,
    pub y: Fixed,
    pub z: Fixed,
}

/// The vector holding a given model triple (spec-level constructor).
pub open spec fn vec3f(t: (int, int, int)) -> Vec3 {
    Vec3 { x: crate::fixed::fxf(t.0), y: crate::fixed::fxf(t.1), z: crate::fixed::fxf(t.2) }
}

/// The integer model of a vector: its raw component values.
pub open spec fn v3(v: Vec3) -> (int, int, int) {
    (v.x.raw as int, v.y.raw as int, v.z.raw as int)
}

pub open spec fn vadd(a: (int, int, int), b: (int, int, int)) -> (int, int, int) {
    (fx_add(a.0, b.0), fx_add(a.1, b.1), fx_add(a.2, b.2))
}

pub open spec fn vsub(a: (int, int, int), b: (int, int, int)) -> (int, int, int) {
    (fx_sub(a.0, b.0), fx_sub(a.1, b.1), fx_sub(a.2, b.2))
}

pub open spec fn vneg(a: (int, int, int)) -> (int, int, int) {
    (fx_neg(a.0), fx_neg(a.1), fx_neg(a.2))
}

/// Componentwise (Hadamard) product.
pub open spec fn vhad(a: (int, int, int), b: (int, int, int)) -> (int, int, int) {
    (fx_mul(a.0, b.0), fx_mul(a.1, b.1), fx_mul(a.2, b.2))
}

pub open spec fn vscale(s: int, a: (int, int, int)) -> (int, int, int) {
    (fx_mul(s, a.0), fx_mul(s, a.1), fx_mul(s, a.2))
}

pub open spec fn vdot(a: (int, int, int), b: (int, int, int)) -> int {
    fx_add(fx_add(fx_mul(a.0, b.0), fx_mul(a.1, b.1)), fx_mul(a.2, b.2))
}

pub open spec fn vcross(a: (int, int, int), b: (int, int, int)) -> (int, int, int) {
    (
        fx_sub(fx_mul(a.1, b.2), fx_mul(a.2, b.1)),
        fx_sub(fx_mul(a.2, b.0), fx_mul(a.0, b.2)),
        fx_sub(fx_mul(a.0, b.1), fx_mul(a.1, b.0)),
    )
}

pub open spec fn vlen2(a: (int, int, int)) -> int {
    vdot(a, a)
}

pub open spec fn vlen(a: (int, int, int)) -> int {
    fx_sqrt(vlen2(a))
}

/// Division by a scalar goes through the reciprocal, as in `v / s`.
pub open spec fn vdiv(a: (int, int, int), s: int) -> (int, int, int) {
    vscale(fx_div(SCALE as int, s), a)
}

pub open spec fn vunit(a: (int, int, int)) -> (int, int, int) {
    vdiv(a, vlen(a))
}

pub open spec fn vlerp(a: (int, int, int), b: (int, int, int), t: int) -> (int, int, int) {
    vadd(vscale(fx_sub(SCALE as int, t), a), vscale(t, b))
}

pub open spec fn vnear_zero(a: (int, int, int)) -> bool {
    -NEAR_ZERO_RAW < a.0 < NEAR_ZERO_RAW && -NEAR_ZERO_RAW < a.1 < NEAR_ZERO_RAW
        && -NEAR_ZERO_RAW < a.2 < NEAR_ZERO_RAW
}

/// Mirror of the law of reflection: `v - 2*dot(v,n)*n`.
pub open spec fn vreflect(v: (int, int, int), n: (int, int, int)) -> (int, int, int) {
    vsub(v, vscale(fx_mul(2 * SCALE, vdot(v, n)), n))
}

/// Mirror of Snell refraction, split into perpendicular and parallel parts.
pub open spec fn vrefract(v: (int, int, int), n: (int, int, int), ratio: int) -> (int, int, int) {
    let cos_theta = crate::fixed::fx_min(vdot(vneg(v), n), SCALE as int);
    let r_out_perp = vscale(ratio, vadd(v, vscale(cos_theta, n)));
    let r_out_parallel = vscale(
        fx_sqrt(fx_abs(fx_sub(SCALE as int, vlen2(r_out_perp)))),
        vneg(n),
    );
    vadd(r_out_perp, r_out_parallel)
}

/// A square is never negative, so dot products of a vector with itself and
/// therefore squared lengths are never negative.
pub proof fn lemma_fx_mul_self_nonneg(a: int)
    ensures
        fx_mul(a, a) >= 0,
{
    assert(a * a >= 0) by (nonlinear_arith);
    vstd::arithmetic::div_mod::lemma_div_pos_is_pos(a * a, SCALE as int);
}

/// Scaling by zero gives the zero vector.
pub proof fn lemma_vscale_zero(a: (int, int, int))
    ensures
        vscale(0, a) == (0int, 0int, 0int),
{
    vstd::arithmetic::div_mod::lemma_div_of0(SCALE as int);
    assert(0 * a.0 == 0 && 0 * a.1 == 0 && 0 * a.2 == 0) by (nonlinear_arith);
}

pub proof fn lemma_vlen2_nonneg(a: (int, int, int))
    ensures
        vlen2(a) >= 0,
{
    lemma_fx_mul_self_nonneg(a.0);
    lemma_fx_mul_self_nonneg(a.1);
    lemma_fx_mul_self_nonneg(a.2);
}

impl Vec3 {
    pub fn new(x: Fixed, y: Fixed, z: Fixed) -> (r: Vec3)
        ensures
            r == (Vec3 { x, y, z }),
    {
        Vec3 { x, y, z }
    }

    pub fn copy(&self) -> (r: Vec3)
        ensures
            r == *self,
    {
        Vec3 { x: self.x, y: self.y, z: self.z }
    }

    pub fn zero() -> (r: Vec3)
        ensures
            v3(r) == (0int, 0int, 0int),
    {
        Vec3 { x: Fixed::zero(), y: Fixed::zero(), z: Fixed::zero() }
    }

    pub fn one() -> (r: Vec3)
        ensures
            v3(r) == (SCALE as int, SCALE as int, SCALE as int),
    {
        Vec3 { x: Fixed::one(), y: Fixed::one(), z: Fixed::one() }
    }

    /// The positive-x unit vector.
    pub fn right() -> (r: Vec3)
        ensures
            v3(r) == (SCALE as int, 0int, 0int),
    {
        Vec3 { x: Fixed::one(), y: Fixed::zero(), z: Fixed::zero() }
    }

    /// The positive-y unit vector.
    pub fn up() -> (r: Vec3)
        ensures
            v3(r) == (0int, SCALE as int, 0int),
    {
        Vec3 { x: Fixed::zero(), y: Fixed::one(), z: Fixed::zero() }
    }

    /// The positive-z unit vector.
    pub fn fwd() -> (r: Vec3)
        ensures
            v3(r) == (0int, 0int, SCALE as int),
    {
        Vec3 { x: Fixed::zero(), y: Fixed::zero(), z: Fixed::one() }
    }

    pub fn x(&self) -> (r: Fixed)
        ensures
            r == self.x,
    {
        self.x
    }

    pub fn y(&self) -> (r: Fixed)
        ensures
            r == self.y,
    {
        self.y
    }

    pub fn z(&self) -> (r: Fixed)
        ensures
            r == self.z,
    {
        self.z
    }

    pub fn plus(&self, o: &Vec3) -> (r: Vec3)
        ensures
            v3(r) == vadd(v3(*self), v3(*o)),
    {
        Vec3 { x: self.x.plus(o.x), y: self.y.plus(o.y), z: self.z.plus(o.z) }
    }

    pub fn minus(&self, o: &Vec3) -> (r: Vec3)
        ensures
            v3(r) == vsub(v3(*self), v3(*o)),
    {
        Vec3 { x: self.x.minus(o.x), y: self.y.minus(o.y), z: self.z.minus(o.z) }
    }

    pub fn neg(&self) -> (r: Vec3)
        ensures
            v3(r) == vneg(v3(*self)),
    {
        Vec3 { x: self.x.neg(), y: self.y.neg(), z: self.z.neg() }
    }

    /// Componentwise product, the color-attenuation operation.
    pub fn hadamard(&self, o: &Vec3) -> (r: Vec3)
        ensures
            v3(r) == vhad(v3(*self), v3(*o)),
    {
        Vec3 { x: self.x.times(o.x), y: self.y.times(o.y), z: self.z.times(o.z) }
    }

    pub fn scale(&self, s: Fixed) -> (r: Vec3)
        ensures
            v3(r) == vscale(s.raw as int, v3(*self)),
    {
        Vec3 { x: s.times(self.x), y: s.times(self.y), z: s.times(self.z) }
    }

    /// Division by a scalar, via the reciprocal as in the ratio form `v / s`.
    pub fn div_scalar(&self, s: Fixed) -> (r: Vec3)
        ensures
            v3(r) == vdiv(v3(*self), s.raw as int),
    {
        self.scale(s.recip())
    }

    pub fn dot(u: &Vec3, v: &Vec3) -> (r: Fixed)
        ensures
            r.raw as int == vdot(v3(*u), v3(*v)),
    {
        u.x.times(v.x).plus(u.y.times(v.y)).plus(u.z.times(v.z))
    }

    pub fn cross(u: &Vec3, v: &Vec3) -> (r: Vec3)
        ensures
            v3(r) == vcross(v3(*u), v3(*v)),
    {
        Vec3 {
            x: u.y.times(v.z).minus(u.z.times(v.y)),
            y: u.z.times(v.x).minus(u.x.times(v.z)),
            z: u.x.times(v.y).minus(u.y.times(v.x)),
        }
    }

    pub fn length_squared(&self) -> (r: Fixed)
        ensures
            r.raw as int == vlen2(v3(*self)),
            r.raw >= 0,
    {
        proof {
            lemma_vlen2_nonneg(v3(*self));
        }
        Vec3::dot(self, self)
    }

    pub fn length(&self) -> (r: Fixed)
        ensures
            r.raw as int == vlen(v3(*self)),
            r.raw >= 0,
    {
        self.length_squared().sqrt()
    }

    /// The vector scaled to unit length.  Meaningful only for a vector whose
    /// length is nonzero; a zero vector maps to the saturated "infinite"
    /// components, which callers must avoid by construction.
    pub fn unit_vector(&self) -> (r: Vec3)
        ensures
            v3(r) == vunit(v3(*self)),
    {
        self.div_scalar(self.length())
    }

    pub fn lerp(orig: &Vec3, dest: &Vec3, t: Fixed) -> (r: Vec3)
        ensures
            v3(r) == vlerp(v3(*orig), v3(*dest), t.raw as int),
    {
        orig.scale(Fixed::one().minus(t)).plus(&dest.scale(t))
    }

    /// The componentwise minimum of two vectors.
    pub fn comp_min(&self, o: &Vec3) -> (r: Vec3)
        ensures
            v3(r) == (
                crate::fixed::fx_min(self.x.raw as int, o.x.raw as int),
                crate::fixed::fx_min(self.y.raw as int, o.y.raw as int),
                crate::fixed::fx_min(self.z.raw as int, o.z.raw as int),
            ),
    {
        Vec3 { x: self.x.min_of(o.x), y: self.y.min_of(o.y), z: self.z.min_of(o.z) }
    }

    /// The componentwise maximum of two vectors.
    pub fn comp_max(&self, o: &Vec3) -> (r: Vec3)
        ensures
            v3(r) == (
                crate::fixed::fx_max(self.x.raw as int, o.x.raw as int),
                crate::fixed::fx_max(self.y.raw as int, o.y.raw as int),
                crate::fixed::fx_max(self.z.raw as int, o.z.raw as int),
            ),
    {
        Vec3 { x: self.x.max_of(o.x), y: self.y.max_of(o.y), z: self.z.max_of(o.z) }
    }

    /// Whether every component is within about 1e-8 of zero.
    pub fn near_zero(&self) -> (r: bool)
        ensures
            r == vnear_zero(v3(*self)),
    {
        self.x.raw < NEAR_ZERO_RAW && self.x.raw > -NEAR_ZERO_RAW && self.y.raw < NEAR_ZERO_RAW
            && self.y.raw > -NEAR_ZERO_RAW && self.z.raw < NEAR_ZERO_RAW && self.z.raw
            > -NEAR_ZERO_RAW
    }

    /// Reflection about a normal: `v - 2*dot(v,n)*n`.
    pub fn reflect(&self, n: &Vec3) -> (r: Vec3)
        ensures
            v3(r) == vreflect(v3(*self), v3(*n)),
    {
        let two_dot = Fixed::from_raw(2 * SCALE).times(Vec3::dot(self, n));
        self.minus(&n.scale(two_dot))
    }

    /// Refraction of a unit incident vector about a unit normal with the
    /// index ratio eta_i / eta_t, split into perpendicular and parallel
    /// components of Snell's law.
    pub fn refract(&self, n: &Vec3, refraction_ratio: Fixed) -> (r: Vec3)
        ensures
            v3(r) == vrefract(v3(*self), v3(*n), refraction_ratio.raw as int),
    {
        let cos_theta = Vec3::dot(&self.neg(), n).min_of(Fixed::one());
        let r_out_perp = self.plus(&n.scale(cos_theta)).scale(refraction_ratio);
        let par_len = Fixed::one().minus(r_out_perp.length_squared()).abs().sqrt();
        let r_out_parallel = n.neg().scale(par_len);
        r_out_perp.plus(&r_out_parallel)
    }
}

} // verus!
