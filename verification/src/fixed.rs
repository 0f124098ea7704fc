//! The scalar type of the tracer: a Q30 fixed-point number stored in an
//! `i64`, together with an exact integer model of every operation.
//!
//! A `Fixed` with raw value `r` stands for the real number `r / SCALE`.
//! Every arithmetic operation saturates at the `i64` range, so all
//! operations are total; `i64::MAX` and `i64::MIN` play the role of the
//! infinities in slab tests and degenerate divisions.

use vstd::prelude::*;

verus! {

/// Denominator of the fixed-point representation: 2^30.
pub const SCALE: i64 = 0x4000_0000;

/// Clamp an unbounded integer into the `i64` range.
pub open spec fn sat64(x: int) -> int {
    if x > i64::MAX {
        i64::MAX as int
    } else if x < i64::MIN {
        i64::MIN as int
    } else {
        x
    }
}

/// Round-toward-zero division by a positive divisor.
pub open spec fn tdiv(a: int, b: int) -> int
    recommends
        b > 0,
{
    if a >= 0 {
        a / b
    } else {
        -((-a) / b)
    }
}

/// Round-toward-zero division by any nonzero divisor.
pub open spec fn sdiv(a: int, b: int) -> int
    recommends
        b != 0,
{
    if b > 0 {
        tdiv(a, b)
    } else {
        -tdiv(a, -b)
    }
}

pub open spec fn fx_add(a: int, b: int) -> int {
    sat64(a + b)
}

pub open spec fn fx_sub(a: int, b: int) -> int {
    sat64(a - b)
}

pub open spec fn fx_neg(a: int) -> int {
    sat64(-a)
}

pub open spec fn fx_mul(a: int, b: int) -> int {
    sat64(tdiv(a * b, SCALE as int))
}

/// Fixed-point division.  A zero divisor yields a signed "infinity", the
/// saturating analogue of the IEEE behaviour the slab test relies on.
pub open spec fn fx_div(a: int, b: int) -> int {
    if b == 0 {
        if a >= 0 {
            i64::MAX as int
        } else {
            i64::MIN as int
        }
    } else {
        sat64(sdiv(a * SCALE, b))
    }
}

pub open spec fn fx_abs(a: int) -> int {
    sat64(if a >= 0 { a } else { -a })
}

pub open spec fn fx_min(a: int, b: int) -> int {
    if a <= b { a } else { b }
}

pub open spec fn fx_max(a: int, b: int) -> int {
    if a >= b { a } else { b }
}

/// The integer square root: the unique `r` with `r^2 <= n < (r+1)^2`.
pub open spec fn isqrt(n: nat) -> nat {
    choose|r: nat| #[trigger] (r * r) <= n && n < (r + 1) * (r + 1)
}

/// Fixed-point square root of a non-negative raw value; 0 for a negative
/// argument (callers test the sign first).
pub open spec fn fx_sqrt(a: int) -> int {
    if a >= 0 {
        isqrt((a * SCALE) as nat) as int
    } else {
        0
    }
}

/// Two integers bracketed by the same square-root window are equal.
proof fn lemma_isqrt_unique(n: nat, r1: nat, r2: nat)
    requires
        r1 * r1 <= n < (r1 + 1) * (r1 + 1),
        r2 * r2 <= n < (r2 + 1) * (r2 + 1),
    ensures
        r1 == r2,
{
    assert(r1 == r2) by (nonlinear_arith)
        requires
            r1 * r1 <= n < (r1 + 1) * (r1 + 1),
            r2 * r2 <= n < (r2 + 1) * (r2 + 1),
    ;
}

/// |a| <= aa and |b| <= bb bound the product by aa*bb.
proof fn lemma_mul_bound(a: int, b: int, aa: int, bb: int)
    by (nonlinear_arith)
    requires
        -aa <= a <= aa,
        -bb <= b <= bb,
        0 <= aa,
        0 <= bb,
    ensures
        -(aa * bb) <= a * b <= aa * bb,
{
}

/// Truncating division shrinks the magnitude.
proof fn lemma_tdiv_bound(a: int, b: int)
    by (nonlinear_arith)
    requires
        b >= 1,
    ensures
        a >= 0 ==> 0 <= tdiv(a, b) <= a,
        a < 0 ==> a <= tdiv(a, b) <= 0,
{
}

/// A product of non-negative factors stays non-negative and below the
/// product of the factor bounds, after the fixed-point scaling division.
pub proof fn lemma_fx_mul_le(a: int, b: int, hi_a: int, hi_b: int)
    requires
        0 <= a <= hi_a,
        0 <= b <= hi_b,
    ensures
        0 <= fx_mul(a, b),
        fx_mul(a, b) <= sat64(tdiv(hi_a * hi_b, SCALE as int)),
{
    assert(0 <= a * b <= hi_a * hi_b) by (nonlinear_arith)
        requires
            0 <= a <= hi_a,
            0 <= b <= hi_b,
    ;
    vstd::arithmetic::div_mod::lemma_div_pos_is_pos(a * b, SCALE as int);
    vstd::arithmetic::div_mod::lemma_div_is_ordered(a * b, hi_a * hi_b, SCALE as int);
}

fn clamp_i128(s: i128) -> (r: i64)
    ensures
        r as int == sat64(s as int),
{
    if s > i64::MAX as i128 {
        i64::MAX
    } else if s < i64::MIN as i128 {
        i64::MIN
    } else {
        s as i64
    }
}

fn div_trunc_pos(p: i128, d: i128) -> (r: i128)
    requires
        d > 0,
        p > i128::MIN,
    ensures
        r as int == tdiv(p as int, d as int),
        p >= 0 ==> 0 <= r <= p,
        p < 0 ==> p <= r <= 0,
{
    proof {
        lemma_tdiv_bound(p as int, d as int);
    }
    if p >= 0 {
        ((p as u128) / (d as u128)) as i128
    } else {
        let m: u128 = ((-p) as u128) / (d as u128);
        -(m as i128)
    }
}

fn div_trunc_any(p: i128, d: i128) -> (r: i128)
    requires
        d != 0,
        d > i128::MIN,
        p > i128::MIN,
    ensures
        r as int == sdiv(p as int, d as int),
        -fx_abs_helper(p as int) <= r <= fx_abs_helper(p as int),
{
    if d > 0 {
        div_trunc_pos(p, d)
    } else {
        let q = div_trunc_pos(p, -d);
        -q
    }
}

/// Magnitude of an unbounded integer (spec helper for bounds).
pub open spec fn fx_abs_helper(a: int) -> int {
    if a >= 0 {
        a
    } else {
        -a
    }
}

/// The scalar holding a given raw model value (spec-level constructor).
pub open spec fn fxf(x: int) -> Fixed {
    Fixed { raw: x as i64 }
}

/// The Q30 fixed-point scalar.
#[derive(Clone, Copy, PartialEq, Eq, Structural, Debug)]
pub struct Fixed {
    pub raw: i64,
}

impl Fixed {
    /// Build a scalar directly from its raw Q30 representation.
    pub fn from_raw(raw: i64) -> (r: Fixed)
        ensures
            r.raw == raw,
    {
        Fixed { raw }
    }

    /// The scalar standing for the integer `v`, saturated into range.
    pub fn from_int(v: i64) -> (r: Fixed)
        ensures
            r.raw as int == sat64(v * SCALE),
    {
        proof {
            lemma_mul_bound(v as int, SCALE as int, 0x8000_0000_0000_0000, SCALE as int);
        }
        let p: i128 = (v as i128) * (SCALE as i128);
        Fixed { raw: clamp_i128(p) }
    }

    /// The scalar closest to (and at most) `n / d`, rounding toward zero.
    pub fn from_ratio(n: i64, d: i64) -> (r: Fixed)
        ensures
            d != 0 ==> r.raw as int == sat64(sdiv(n * SCALE, d as int)),
            d == 0 ==> r.raw as int == (if n >= 0 { i64::MAX as int } else { i64::MIN as int }),
    {
        if d == 0 {
            if n >= 0 {
                Fixed { raw: i64::MAX }
            } else {
                Fixed { raw: i64::MIN }
            }
        } else {
            proof {
                lemma_mul_bound(n as int, SCALE as int, 0x8000_0000_0000_0000, SCALE as int);
            }
            let p: i128 = (n as i128) * (SCALE as i128);
            let q = div_trunc_any(p, d as i128);
            Fixed { raw: clamp_i128(q) }
        }
    }

    pub fn raw(&self) -> (r: i64)
        ensures
            r == self.raw,
    {
        self.raw
    }

    pub fn zero() -> (r: Fixed)
        ensures
            r.raw == 0,
    {
        Fixed { raw: 0 }
    }

    pub fn one() -> (r: Fixed)
        ensures
            r.raw == SCALE,
    {
        Fixed { raw: SCALE }
    }

    /// Largest representable scalar; stands in for positive infinity.
    pub fn infinity() -> (r: Fixed)
        ensures
            r.raw == i64::MAX,
    {
        Fixed { raw: i64::MAX }
    }

    /// Smallest representable scalar; stands in for negative infinity.
    pub fn neg_infinity() -> (r: Fixed)
        ensures
            r.raw == i64::MIN,
    {
        Fixed { raw: i64::MIN }
    }

    pub fn plus(self, o: Fixed) -> (r: Fixed)
        ensures
            r.raw as int == fx_add(self.raw as int, o.raw as int),
    {
        let s: i128 = self.raw as i128 + o.raw as i128;
        Fixed { raw: clamp_i128(s) }
    }

    pub fn minus(self, o: Fixed) -> (r: Fixed)
        ensures
            r.raw as int == fx_sub(self.raw as int, o.raw as int),
    {
        let s: i128 = self.raw as i128 - o.raw as i128;
        Fixed { raw: clamp_i128(s) }
    }

    pub fn neg(self) -> (r: Fixed)
        ensures
            r.raw as int == fx_neg(self.raw as int),
    {
        let s: i128 = -(self.raw as i128);
        Fixed { raw: clamp_i128(s) }
    }

    pub fn times(self, o: Fixed) -> (r: Fixed)
        ensures
            r.raw as int == fx_mul(self.raw as int, o.raw as int),
    {
        proof {
            lemma_mul_bound(
                self.raw as int,
                o.raw as int,
                0x8000_0000_0000_0000,
                0x8000_0000_0000_0000,
            );
        }
        let p: i128 = (self.raw as i128) * (o.raw as i128);
        let q = div_trunc_pos(p, SCALE as i128);
        Fixed { raw: clamp_i128(q) }
    }

    pub fn div_by(self, o: Fixed) -> (r: Fixed)
        ensures
            r.raw as int == fx_div(self.raw as int, o.raw as int),
    {
        if o.raw == 0 {
            if self.raw >= 0 {
                Fixed { raw: i64::MAX }
            } else {
                Fixed { raw: i64::MIN }
            }
        } else {
            proof {
                lemma_mul_bound(
                    self.raw as int,
                    SCALE as int,
                    0x8000_0000_0000_0000,
                    SCALE as int,
                );
            }
            let p: i128 = (self.raw as i128) * (SCALE as i128);
            let q = div_trunc_any(p, o.raw as i128);
            Fixed { raw: clamp_i128(q) }
        }
    }

    /// Multiplicative inverse, `1 / self`.
    pub fn recip(self) -> (r: Fixed)
        ensures
            r.raw as int == fx_div(SCALE as int, self.raw as int),
    {
        Fixed { raw: SCALE }.div_by(self)
    }

    pub fn abs(self) -> (r: Fixed)
        ensures
            r.raw as int == fx_abs(self.raw as int),
    {
        if self.raw >= 0 {
            self
        } else {
            self.neg()
        }
    }

    pub fn min_of(self, o: Fixed) -> (r: Fixed)
        ensures
            r.raw as int == fx_min(self.raw as int, o.raw as int),
    {
        if self.raw <= o.raw {
            self
        } else {
            o
        }
    }

    pub fn max_of(self, o: Fixed) -> (r: Fixed)
        ensures
            r.raw as int == fx_max(self.raw as int, o.raw as int),
    {
        if self.raw >= o.raw {
            self
        } else {
            o
        }
    }

    pub fn lt(self, o: Fixed) -> (r: bool)
        ensures
            r == (self.raw < o.raw),
    {
        self.raw < o.raw
    }

    pub fn le(self, o: Fixed) -> (r: bool)
        ensures
            r == (self.raw <= o.raw),
    {
        self.raw <= o.raw
    }

    pub fn gt(self, o: Fixed) -> (r: bool)
        ensures
            r == (self.raw > o.raw),
    {
        self.raw > o.raw
    }

    pub fn ge(self, o: Fixed) -> (r: bool)
        ensures
            r == (self.raw >= o.raw),
    {
        self.raw >= o.raw
    }

    pub fn is_neg(self) -> (r: bool)
        ensures
            r == (self.raw < 0),
    {
        self.raw < 0
    }

    /// Division of the scalar by a small positive integer, exact on the raw
    /// representation.
    pub fn div_int(self, k: i64) -> (r: Fixed)
        requires
            k > 0,
        ensures
            r.raw as int == tdiv(self.raw as int, k as int),
    {
        proof {
            lemma_tdiv_bound(self.raw as int, k as int);
        }
        if self.raw >= 0 {
            Fixed { raw: ((self.raw as u64) / (k as u64)) as i64 }
        } else {
            let m: u64 = ((-(self.raw as i128)) as u64) / (k as u64);
            Fixed { raw: clamp_i128(-(m as i128)) }
        }
    }

    /// Square root of a non-negative scalar: the raw result is the integer
    /// square root of `raw * SCALE`, so it is exact whenever the true root
    /// is representable.
    pub fn sqrt(self) -> (r: Fixed)
        requires
            self.raw >= 0,
        ensures
            r.raw as int == fx_sqrt(self.raw as int),
            r.raw >= 0,
    {
        proof {
            assert((self.raw as int) * (SCALE as int) <= 0x7fff_ffff_ffff_ffff * 0x4000_0000)
                by (nonlinear_arith)
                requires
                    0 <= self.raw <= 0x7fff_ffff_ffff_ffff,
            ;
        }
        let n: u128 = (self.raw as u128) * (SCALE as u128);
        let mut lo: u128 = 0;
        // (2^47)^2 = 2^94 > 2^93 > n, so the root is below 2^47.
        let mut hi: u128 = 0x8000_0000_0000;
        proof {
            assert((hi + 1) * (hi + 1) > n) by (nonlinear_arith)
                requires
                    hi == 0x8000_0000_0000u128,
                    n <= 0x7fff_ffff_ffff_ffffu128 * 0x4000_0000u128,
            ;
        }
        while lo < hi
            invariant
                lo * lo <= n,
                (hi + 1) * (hi + 1) > n,
                lo <= hi,
                hi <= 0x8000_0000_0000,
                n <= 0x7fff_ffff_ffff_ffffu128 * 0x4000_0000u128,
            decreases hi - lo,
        {
            let mid: u128 = lo + (hi - lo + 1) / 2;
            proof {
                assert(mid * mid <= 0x8000_0000_0000u128 * 0x8000_0000_0000u128)
                    by (nonlinear_arith)
                    requires
                        mid <= 0x8000_0000_0000u128,
                ;
            }
            if mid * mid <= n {
                lo = mid;
            } else {
                proof {
                    assert(mid >= 1);
                }
                hi = mid - 1;
            }
        }
        proof {
            assert(n as int == (self.raw as int) * (SCALE as int)) by (nonlinear_arith)
                requires
                    self.raw >= 0,
                    n == (self.raw as u128) * (SCALE as u128),
            ;
            assert(exists|r: nat| #[trigger] (r * r) <= n as nat && (n as nat) < (r + 1) * (r + 1)) by {
                assert((lo as nat) * (lo as nat) <= n as nat && (n as nat) < ((lo as nat) + 1) * (
                (lo as nat) + 1));
            }
            lemma_isqrt_unique(n as nat, lo as nat, isqrt(n as nat));
        }
        Fixed { raw: lo as i64 }
    }
}

} // verus!
