//! Trigonometric and logarithmic approximations on the fixed-point scalar.
//!
//! Each routine reduces its argument exactly and then evaluates a short
//! Maclaurin polynomial; the specs mirror the computation step by step, so
//! every result is pinned to a deterministic integer value.

use vstd::prelude::*;

use crate::fixed::{
    fx_abs, fx_abs_helper, fx_add, fx_div, fx_mul, fx_neg, fx_sqrt, fx_sub, tdiv, Fixed, SCALE,
};

verus! {

/// pi in raw Q30 units.
pub const PI_RAW: i64 = 3373259426;

/// 2*pi in raw Q30 units.
pub const TWO_PI_RAW: i64 = 6746518853;

/// pi/2 in raw Q30 units.
pub const HALF_PI_RAW: i64 = 1686629713;

/// pi/180 in raw Q30 units.
pub const RAD_PER_DEG_RAW: i64 = 18740330;

/// ln 2 in raw Q30 units.
pub const LN2_RAW: i64 = 744261117;

/// The angle folded into [0, 2*pi).
pub open spec fn reduce_angle(x: int) -> int {
    let a = fx_abs_helper(x) % (TWO_PI_RAW as int);
    if x >= 0 {
        a
    } else {
        (TWO_PI_RAW - a) % (TWO_PI_RAW as int)
    }
}

/// Maclaurin polynomial of sine through the ninth power.
pub open spec fn sin_poly(y: int) -> int {
    let y2 = fx_mul(y, y);
    let y3 = fx_mul(y2, y);
    let y5 = fx_mul(y3, y2);
    let y7 = fx_mul(y5, y2);
    let y9 = fx_mul(y7, y2);
    fx_add(fx_sub(fx_add(fx_sub(y, tdiv(y3, 6)), tdiv(y5, 120)), tdiv(y7, 5040)), tdiv(y9, 362880))
}

/// Maclaurin polynomial of cosine through the eighth power.
pub open spec fn cos_poly(y: int) -> int {
    let y2 = fx_mul(y, y);
    let y4 = fx_mul(y2, y2);
    let y6 = fx_mul(y4, y2);
    let y8 = fx_mul(y6, y2);
    fx_add(
        fx_sub(fx_add(fx_sub(SCALE as int, tdiv(y2, 2)), tdiv(y4, 24)), tdiv(y6, 720)),
        tdiv(y8, 40320),
    )
}

/// Sine and cosine together: fold into a quadrant, evaluate on [0, pi/2],
/// then fix the signs by quadrant.
pub open spec fn sp_sincos(x: int) -> (int, int) {
    let m = reduce_angle(x);
    let q0 = m / (HALF_PI_RAW as int);
    let q = if q0 > 3 {
        3
    } else {
        q0
    };
    let y = m - q * HALF_PI_RAW;
    let s = sin_poly(y);
    let c = cos_poly(y);
    if q == 0 {
        (s, c)
    } else if q == 1 {
        (c, fx_neg(s))
    } else if q == 2 {
        (fx_neg(s), fx_neg(c))
    } else {
        (fx_neg(c), s)
    }
}

pub open spec fn sp_sin(x: int) -> int {
    sp_sincos(x).0
}

pub open spec fn sp_cos(x: int) -> int {
    sp_sincos(x).1
}

pub open spec fn sp_tan(x: int) -> int {
    fx_div(sp_sin(x), sp_cos(x))
}

/// One argument-halving step of the arctangent: z / (1 + sqrt(1 + z^2)).
pub open spec fn atan_half(z: int) -> int {
    fx_div(z, fx_add(SCALE as int, fx_sqrt(fx_add(SCALE as int, fx_mul(z, z)))))
}

/// Arctangent of a ratio in [0, 1]: halve the argument twice, evaluate the
/// Maclaurin polynomial through the seventh power, and scale back by 4.
pub open spec fn sp_atan(z: int) -> int {
    let w = atan_half(atan_half(z));
    let w2 = fx_mul(w, w);
    let w3 = fx_mul(w2, w);
    let w5 = fx_mul(w3, w2);
    let w7 = fx_mul(w5, w2);
    let p = fx_sub(fx_add(fx_sub(w, tdiv(w3, 3)), tdiv(w5, 5)), tdiv(w7, 7));
    fx_mul(4 * SCALE, p)
}

/// Four-quadrant arctangent with the octant split on |y| versus |x|.
pub open spec fn sp_atan2(y: int, x: int) -> int {
    if y == 0 && x == 0 {
        0
    } else {
        let ay = fx_abs(y);
        let ax = fx_abs(x);
        let base = if ay <= ax {
            sp_atan(fx_div(ay, ax))
        } else {
            fx_sub(HALF_PI_RAW as int, sp_atan(fx_div(ax, ay)))
        };
        if x >= 0 {
            if y >= 0 {
                base
            } else {
                fx_neg(base)
            }
        } else {
            if y >= 0 {
                fx_sub(PI_RAW as int, base)
            } else {
                fx_neg(fx_sub(PI_RAW as int, base))
            }
        }
    }
}

/// Arccosine by way of the arctangent of sqrt(1 - v^2) over v.
pub open spec fn sp_acos(v: int) -> int {
    sp_atan2(fx_sqrt(fx_abs(fx_sub(SCALE as int, fx_mul(v, v)))), v)
}

/// Normalization of a positive sub-unit value to [1/2, 1): doubles until
/// the value reaches a half, counting the doublings.
pub open spec fn ln_norm(m: int, k: int) -> (int, int)
    decreases 0x4000_0000 - m
        when 1 <= m
{
    if m >= 0x2000_0000 {
        (m, k)
    } else {
        ln_norm(2 * m, k + 1)
    }
}

/// Natural logarithm of a value in (0, 1), via ln(m) - k ln 2 with
/// m in [1/2, 1) and an arctanh series for ln(m); 0 itself maps to the
/// negative "infinity".
pub open spec fn sp_ln_unit(x: int) -> int {
    if x <= 0 {
        i64::MIN as int
    } else {
        let mk = ln_norm(x, 0);
        let z = fx_div(fx_sub(mk.0, SCALE as int), fx_add(mk.0, SCALE as int));
        let z2 = fx_mul(z, z);
        let z3 = fx_mul(z2, z);
        let z5 = fx_mul(z3, z2);
        let z7 = fx_mul(z5, z2);
        let s = fx_add(fx_add(fx_add(z, tdiv(z3, 3)), tdiv(z5, 5)), tdiv(z7, 7));
        fx_sub(fx_add(s, s), fx_mul(mk.1 * SCALE, LN2_RAW as int))
    }
}

fn sin_poly_exec(y: Fixed) -> (r: Fixed)
    ensures
        r.raw as int == sin_poly(y.raw as int),
{
    let y2 = y.times(y);
    let y3 = y2.times(y);
    let y5 = y3.times(y2);
    let y7 = y5.times(y2);
    let y9 = y7.times(y2);
    y.minus(y3.div_int(6)).plus(y5.div_int(120)).minus(y7.div_int(5040)).plus(y9.div_int(362880))
}

fn cos_poly_exec(y: Fixed) -> (r: Fixed)
    ensures
        r.raw as int == cos_poly(y.raw as int),
{
    let y2 = y.times(y);
    let y4 = y2.times(y2);
    let y6 = y4.times(y2);
    let y8 = y6.times(y2);
    Fixed::one().minus(y2.div_int(2)).plus(y4.div_int(24)).minus(y6.div_int(720)).plus(
        y8.div_int(40320),
    )
}

fn atan_half_exec(z: Fixed) -> (r: Fixed)
    ensures
        r.raw as int == atan_half(z.raw as int),
{
    let z2 = z.times(z);
    proof {
        crate::vec3::lemma_fx_mul_self_nonneg(z.raw as int);
    }
    let den = Fixed::one().plus(Fixed::one().plus(z2).sqrt());
    z.div_by(den)
}

impl Fixed {
    /// Degrees to radians.
    pub fn to_radians(self) -> (r: Fixed)
        ensures
            r.raw as int == fx_mul(self.raw as int, RAD_PER_DEG_RAW as int),
    {
        self.times(Fixed::from_raw(RAD_PER_DEG_RAW))
    }

    /// Sine and cosine of an angle in radians.
    pub fn sincos(self) -> (r: (Fixed, Fixed))
        ensures
            (r.0.raw as int, r.1.raw as int) == sp_sincos(self.raw as int),
    {
        let a: u64 = if self.raw >= 0 {
            (self.raw as u64) % (TWO_PI_RAW as u64)
        } else {
            let neg: u64 = (-(self.raw as i128)) as u64;
            let am = neg % (TWO_PI_RAW as u64);
            ((TWO_PI_RAW as u64) - am) % (TWO_PI_RAW as u64)
        };
        let m: i64 = a as i64;
        let q0: u64 = (m as u64) / (HALF_PI_RAW as u64);
        let q: i64 = if q0 > 3 {
            3
        } else {
            q0 as i64
        };
        let y = Fixed::from_raw(m - q * HALF_PI_RAW);
        let s = sin_poly_exec(y);
        let c = cos_poly_exec(y);
        if q == 0 {
            (s, c)
        } else if q == 1 {
            (c, s.neg())
        } else if q == 2 {
            (s.neg(), c.neg())
        } else {
            (c.neg(), s)
        }
    }

    pub fn sin(self) -> (r: Fixed)
        ensures
            r.raw as int == sp_sin(self.raw as int),
    {
        self.sincos().0
    }

    pub fn cos(self) -> (r: Fixed)
        ensures
            r.raw as int == sp_cos(self.raw as int),
    {
        self.sincos().1
    }

    pub fn tan(self) -> (r: Fixed)
        ensures
            r.raw as int == sp_tan(self.raw as int),
    {
        let sc = self.sincos();
        sc.0.div_by(sc.1)
    }

    /// Arctangent of a ratio in [0, 1].
    pub fn atan_unit(self) -> (r: Fixed)
        ensures
            r.raw as int == sp_atan(self.raw as int),
    {
        let w = atan_half_exec(atan_half_exec(self));
        let w2 = w.times(w);
        let w3 = w2.times(w);
        let w5 = w3.times(w2);
        let w7 = w5.times(w2);
        let p = w.minus(w3.div_int(3)).plus(w5.div_int(5)).minus(w7.div_int(7));
        Fixed::from_int(4).times(p)
    }

    /// Four-quadrant arctangent, in (-pi, pi].
    pub fn atan2(y: Fixed, x: Fixed) -> (r: Fixed)
        ensures
            r.raw as int == sp_atan2(y.raw as int, x.raw as int),
    {
        if y.raw == 0 && x.raw == 0 {
            return Fixed::zero();
        }
        let ay = y.abs();
        let ax = x.abs();
        let base = if ay.le(ax) {
            ay.div_by(ax).atan_unit()
        } else {
            Fixed::from_raw(HALF_PI_RAW).minus(ax.div_by(ay).atan_unit())
        };
        if x.raw >= 0 {
            if y.raw >= 0 {
                base
            } else {
                base.neg()
            }
        } else {
            if y.raw >= 0 {
                Fixed::from_raw(PI_RAW).minus(base)
            } else {
                Fixed::from_raw(PI_RAW).minus(base).neg()
            }
        }
    }

    /// Arccosine of a value in [-1, 1].
    pub fn acos(self) -> (r: Fixed)
        ensures
            r.raw as int == sp_acos(self.raw as int),
    {
        let v2 = self.times(self);
        let root = Fixed::one().minus(v2).abs();
        proof {
            assert(fx_abs(fx_sub(SCALE as int, fx_mul(self.raw as int, self.raw as int))) >= 0);
        }
        Fixed::atan2(root.sqrt(), self)
    }

    /// Natural logarithm of a value in [0, 1); 0 maps to the negative
    /// "infinity" sentinel.
    pub fn ln_unit(self) -> (r: Fixed)
        requires
            0 <= self.raw < SCALE,
        ensures
            r.raw as int == sp_ln_unit(self.raw as int),
    {
        if self.raw <= 0 {
            return Fixed::neg_infinity();
        }
        let mut m: i64 = self.raw;
        let mut k: i64 = 0;
        proof {
            vstd::arithmetic::power2::lemma2_to64();
        }
        while m < 0x2000_0000
            invariant
                1 <= self.raw < SCALE,
                1 <= m < SCALE,
                0 <= k <= 30,
                ln_norm(m as int, k as int) == ln_norm(self.raw as int, 0),
                vstd::arithmetic::power2::pow2(k as nat) <= m,
            decreases 0x4000_0000 - m,
        {
            proof {
                vstd::arithmetic::power2::lemma2_to64();
                vstd::arithmetic::power2::lemma_pow2_unfold((k + 1) as nat);
                if k > 29 {
                    vstd::arithmetic::power2::lemma_pow2_strictly_increases(29nat, k as nat);
                }
            }
            m = m * 2;
            k = k + 1;
        }
        let z = Fixed::from_raw(m).minus(Fixed::one()).div_by(
            Fixed::from_raw(m).plus(Fixed::one()),
        );
        let z2 = z.times(z);
        let z3 = z2.times(z);
        let z5 = z3.times(z2);
        let z7 = z5.times(z2);
        let s = z.plus(z3.div_int(3)).plus(z5.div_int(5)).plus(z7.div_int(7));
        s.plus(s).minus(Fixed::from_int(k).times(Fixed::from_raw(LN2_RAW)))
    }
}

} // verus!
