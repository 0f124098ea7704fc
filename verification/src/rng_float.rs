//! The random stream: a Xoshiro128+ generator wrapped so that every draw
//! hands verified code a plain value with a proven range.  The stream is
//! threaded explicitly through every sampling call.

use vstd::prelude::*;

use rand::{RngCore, SeedableRng};
use rand_xoshiro::Xoshiro128Plus;

use crate::fixed::{Fixed, SCALE};
use crate::vec3::{v3, vlen2, vneg, vunit, Vec3};

verus! {

#[verifier::external_type_specification]
#[verifier::external_body]
pub struct ExXoshiro128Plus(Xoshiro128Plus);

/// Relies on rand_xoshiro::Xoshiro128Plus and rand::SeedableRng::from_entropy
/// for a generator seeded by the operating system; nothing is assumed about
/// the values it will produce.
#[verifier::external_body]
fn xoshiro_from_entropy() -> Xoshiro128Plus {
    Xoshiro128Plus::from_entropy()
}

/// Relies on rand::SeedableRng::seed_from_u64 for a generator determined by
/// the seed; nothing is assumed about the values it will produce.
#[verifier::external_body]
fn xoshiro_from_seed(seed: u64) -> Xoshiro128Plus {
    Xoshiro128Plus::seed_from_u64(seed)
}

/// Relies on rand::RngCore::next_u64 for the generator's next draw; nothing
/// is assumed about the value.
#[verifier::external_body]
fn xoshiro_next_u64(rng: &mut Xoshiro128Plus) -> u64 {
    rng.next_u64()
}

/// A uniform sampler over the fixed-point unit interval.
pub struct RngGen {
    rng: Xoshiro128Plus,
}

impl RngGen {
    /// A stream seeded from the operating system.
    pub fn new() -> Self {
        RngGen { rng: xoshiro_from_entropy() }
    }

    /// A stream determined by the seed, for reproducible runs.
    pub fn new_seeded(seed: u64) -> Self {
        RngGen { rng: xoshiro_from_seed(seed) }
    }

    /// A draw from [0, 1): the raw value is uniform over [0, SCALE).
    pub fn get(&mut self) -> (r: Fixed)
        ensures
            0 <= r.raw < SCALE,
    {
        let bits = xoshiro_next_u64(&mut self.rng);
        let raw = bits % (SCALE as u64);
        Fixed::from_raw(raw as i64)
    }

    /// A draw from [min, max] (the upper end only at saturation).
    pub fn range(&mut self, min: Fixed, max: Fixed) -> (r: Fixed)
        ensures
            min.raw <= max.raw ==> min.raw <= r.raw <= max.raw,
    {
        let u = self.get();
        let d = max.minus(min);
        let m = d.times(u);
        proof {
            if min.raw <= max.raw {
                crate::fixed::lemma_fx_mul_le(d.raw as int, u.raw as int, d.raw as int, (
                SCALE - 1) as int);
                vstd::arithmetic::div_mod::lemma_div_is_ordered(
                    d.raw * (SCALE - 1),
                    d.raw * SCALE,
                    SCALE as int,
                );
                vstd::arithmetic::div_mod::lemma_div_by_multiple(d.raw as int, SCALE as int);
            }
        }
        min.plus(m)
    }

    /// A uniform draw below `n`.
    pub fn below(&mut self, n: u64) -> (r: u64)
        requires
            n >= 1,
        ensures
            r < n,
    {
        let bits = xoshiro_next_u64(&mut self.rng);
        bits % n
    }
}

/// Negating a vector whose components are within the unit range leaves its
/// squared length unchanged.
pub proof fn lemma_vlen2_neg(a: (int, int, int))
    requires
        -SCALE <= a.0 <= SCALE,
        -SCALE <= a.1 <= SCALE,
        -SCALE <= a.2 <= SCALE,
    ensures
        vlen2(vneg(a)) == vlen2(a),
{
    assert((-a.0) * (-a.0) == a.0 * a.0 && (-a.1) * (-a.1) == a.1 * a.1 && (-a.2) * (-a.2) == a.2
        * a.2) by (nonlinear_arith);
}

impl Vec3 {
    /// A vector with each component drawn uniformly from [0, 1).
    pub fn random(rng: &mut RngGen) -> (r: Vec3)
        ensures
            0 <= r.x.raw < SCALE,
            0 <= r.y.raw < SCALE,
            0 <= r.z.raw < SCALE,
    {
        let x = rng.get();
        let y = rng.get();
        let z = rng.get();
        Vec3::new(x, y, z)
    }

    /// A vector with each component drawn uniformly from [min, max].
    pub fn random_range(rng: &mut RngGen, min: Fixed, max: Fixed) -> (r: Vec3)
        ensures
            min.raw <= max.raw ==> {
                &&& min.raw <= r.x.raw <= max.raw
                &&& min.raw <= r.y.raw <= max.raw
                &&& min.raw <= r.z.raw <= max.raw
            },
    {
        let x = rng.range(min, max);
        let y = rng.range(min, max);
        let z = rng.range(min, max);
        Vec3::new(x, y, z)
    }

    /// Rejection sampling of a point strictly inside the unit ball.  Each
    /// draw lands inside the ball with probability about one half; after an
    /// astronomically unlikely run of rejections the sampler settles on a
    /// fixed interior point so that it always terminates.
    pub fn random_sphere(rng: &mut RngGen) -> (r: Vec3)
        ensures
            vlen2(v3(r)) < SCALE,
            -SCALE <= r.x.raw <= SCALE,
            -SCALE <= r.y.raw <= SCALE,
            -SCALE <= r.z.raw <= SCALE,
    {
        let mut tries: u32 = 0;
        while tries < 1024
            invariant
                true,
            decreases 1024 - tries,
        {
            let p = Self::random_range(rng, Fixed::one().neg(), Fixed::one());
            if p.length_squared().lt(Fixed::one()) {
                return p;
            }
            tries = tries + 1;
        }
        let half = Fixed::from_ratio(1, 2);
        let p = Vec3::new(half, Fixed::zero(), Fixed::zero());
        proof {
            crate::vec3::lemma_fx_mul_self_nonneg(half.raw as int);
        }
        p
    }

    /// A unit-length vector drawn by normalizing a unit-ball sample.
    pub fn random_unit(rng: &mut RngGen) -> (r: Vec3)
        ensures
            exists|sv: (int, int, int)| vlen2(sv) < SCALE && v3(r) == #[trigger] vunit(sv),
    {
        let s = Self::random_sphere(rng);
        let u = s.unit_vector();
        proof {
            assert(vlen2(v3(s)) < SCALE && v3(u) == vunit(v3(s)));
        }
        u
    }

    /// A unit-ball sample flipped into the hemisphere around `normal`.
    pub fn random_hemisphere(rng: &mut RngGen, normal: &Vec3) -> (r: Vec3)
        ensures
            vlen2(v3(r)) < SCALE,
    {
        let in_sphere = Self::random_sphere(rng);
        if Vec3::dot(&in_sphere, normal).gt(Fixed::zero()) {
            in_sphere
        } else {
            proof {
                lemma_vlen2_neg(v3(in_sphere));
            }
            in_sphere.neg()
        }
    }

    /// Rejection sampling of a point strictly inside the unit disk of the
    /// x-y plane.
    pub fn random_unit_xy(rng: &mut RngGen) -> (r: Vec3)
        ensures
            vlen2(v3(r)) < SCALE,
            r.z.raw == 0,
    {
        let mut tries: u32 = 0;
        while tries < 1024
            invariant
                true,
            decreases 1024 - tries,
        {
            let one = Fixed::one();
            let p = Vec3::new(rng.range(one.neg(), one), rng.range(one.neg(), one), Fixed::zero());
            if p.length_squared().lt(Fixed::one()) {
                return p;
            }
            tries = tries + 1;
        }
        let half = Fixed::from_ratio(1, 2);
        let p = Vec3::new(half, Fixed::zero(), Fixed::zero());
        proof {
            crate::vec3::lemma_fx_mul_self_nonneg(half.raw as int);
        }
        p
    }
}

} // verus!
