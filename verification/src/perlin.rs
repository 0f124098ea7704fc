//! Gradient noise: a table of random unit gradients addressed through
//! three shuffled permutation tables, trilinearly interpolated with a
//! smoothstep fade.  The tables' shape is the verified invariant; the
//! noise value itself is procedural detail.

use vstd::prelude::*;

use crate::fixed::{Fixed, SCALE};
use crate::rng_float::RngGen;
use crate::vec3::Vec3;

verus! {

/// Size of the gradient and permutation tables.
pub const POINT_COUNT: usize = 256;

#[derive(Debug)]
pub struct Perlin {
    pub ranvec: Vec<Vec3>,
    pub perm_x: Vec<usize>,
    pub perm_y: Vec<usize>,
    pub perm_z: Vec<usize>,
}

/// Each table holds 256 entries and every permutation entry indexes the
/// gradient table.
pub open spec fn perlin_wf(p: Perlin) -> bool {
    &&& p.ranvec@.len() == 256
    &&& p.perm_x@.len() == 256
    &&& p.perm_y@.len() == 256
    &&& p.perm_z@.len() == 256
    &&& forall|i: int| 0 <= i < 256 ==> #[trigger] p.perm_x@[i] < 256
    &&& forall|i: int| 0 <= i < 256 ==> #[trigger] p.perm_y@[i] < 256
    &&& forall|i: int| 0 <= i < 256 ==> #[trigger] p.perm_z@[i] < 256
}

fn make_perm(rng: &mut RngGen) -> (r: Vec<usize>)
    ensures
        r@.len() == 256,
        forall|i: int| 0 <= i < 256 ==> #[trigger] r@[i] < 256,
{
    let mut p: Vec<usize> = Vec::new();
    let mut i: usize = 0;
    while i < POINT_COUNT
        invariant
            i <= 256,
            p@.len() == i,
            forall|k: int| 0 <= k < i ==> #[trigger] p@[k] < 256,
        decreases 256 - i,
    {
        p.push(i);
        i = i + 1;
    }
    let mut j: usize = POINT_COUNT - 1;
    while j > 0
        invariant
            j < 256,
            p@.len() == 256,
            forall|k: int| 0 <= k < 256 ==> #[trigger] p@[k] < 256,
        decreases j,
    {
        let target = rng.below((j + 1) as u64) as usize;
        let tmp = p[j];
        let tv = p[target];
        p.set(j, tv);
        p.set(target, tmp);
        j = j - 1;
    }
    p
}

impl Perlin {
    /// Fresh tables: 256 random unit gradients and three shuffles of the
    /// identity permutation.
    pub fn new(rng: &mut RngGen) -> (r: Perlin)
        ensures
            perlin_wf(r),
    {
        let mut ranvec: Vec<Vec3> = Vec::new();
        let mut i: usize = 0;
        while i < POINT_COUNT
            invariant
                i <= 256,
                ranvec@.len() == i,
            decreases 256 - i,
        {
            let v = Vec3::random_range(rng, Fixed::one().neg(), Fixed::one()).unit_vector();
            ranvec.push(v);
            i = i + 1;
        }
        let perm_x = make_perm(rng);
        let perm_y = make_perm(rng);
        let perm_z = make_perm(rng);
        Perlin { ranvec, perm_x, perm_y, perm_z }
    }

    /// The noise value at a point, in roughly [-1, 1].
    pub fn noise(&self, p: &Vec3) -> (r: Fixed)
        requires
            perlin_wf(*self),
    {
        let u = Fixed::from_raw(fract_raw(p.x.raw));
        let v = Fixed::from_raw(fract_raw(p.y.raw));
        let w = Fixed::from_raw(fract_raw(p.z.raw));
        let i = cell_index(p.x.raw);
        let j = cell_index(p.y.raw);
        let k = cell_index(p.z.raw);
        let uu = smooth(u);
        let vv = smooth(v);
        let ww = smooth(w);
        let mut accum = Fixed::zero();
        let mut di: usize = 0;
        while di < 2
            invariant
                di <= 2,
                perlin_wf(*self),
                i < 256,
                j < 256,
                k < 256,
            decreases 2 - di,
        {
            let mut dj: usize = 0;
            while dj < 2
                invariant
                    dj <= 2,
                    di < 2,
                    perlin_wf(*self),
                    i < 256,
                    j < 256,
                    k < 256,
                decreases 2 - dj,
            {
                let mut dk: usize = 0;
                while dk < 2
                    invariant
                        dk <= 2,
                        di < 2,
                        dj < 2,
                        perlin_wf(*self),
                        i < 256,
                        j < 256,
                        k < 256,
                    decreases 2 - dk,
                {
                    let gi = self.perm_x[(i + di) % 256] ^ self.perm_y[(j + dj) % 256]
                        ^ self.perm_z[(k + dk) % 256];
                    proof {
                        let a = self.perm_x@[((i + di) % 256) as int];
                        let b = self.perm_y@[((j + dj) % 256) as int];
                        let c = self.perm_z@[((k + dk) % 256) as int];
                        assert(a < 256 && b < 256 && c < 256);
                        assert((a ^ b) < 256 && ((a ^ b) ^ c) < 256) by (bit_vector)
                            requires
                                a < 256usize && b < 256usize && c < 256usize,
                        ;
                    }
                    let g = self.ranvec[gi];
                    let fi = if di == 1 {
                        Fixed::one()
                    } else {
                        Fixed::zero()
                    };
                    let fj = if dj == 1 {
                        Fixed::one()
                    } else {
                        Fixed::zero()
                    };
                    let fk = if dk == 1 {
                        Fixed::one()
                    } else {
                        Fixed::zero()
                    };
                    let weight_v = Vec3::new(u.minus(fi), v.minus(fj), w.minus(fk));
                    let term = fi.times(uu).plus(Fixed::one().minus(fi).times(
                        Fixed::one().minus(uu),
                    )).times(
                        fj.times(vv).plus(Fixed::one().minus(fj).times(Fixed::one().minus(vv))),
                    ).times(
                        fk.times(ww).plus(Fixed::one().minus(fk).times(Fixed::one().minus(ww))),
                    ).times(Vec3::dot(&g, &weight_v));
                    accum = accum.plus(term);
                    dk = dk + 1;
                }
                dj = dj + 1;
            }
            di = di + 1;
        }
        accum
    }
}

/// The fractional part of a raw coordinate, `x - floor(x)` in [0, 1).
fn fract_raw(x: i64) -> (r: i64)
    ensures
        0 <= r < SCALE,
{
    if x >= 0 {
        ((x as u64) % (SCALE as u64)) as i64
    } else {
        let m = (((-(x as i128)) as u64) % (SCALE as u64)) as i64;
        if m == 0 {
            0
        } else {
            SCALE - m
        }
    }
}

/// The lattice cell of a raw coordinate: `floor(x) mod 256`.
fn cell_index(x: i64) -> (r: usize)
    ensures
        r < 256,
{
    if x >= 0 {
        (((x as u64) / (SCALE as u64)) % 256) as usize
    } else {
        let neg = (-(x as i128)) as u64;
        let q = neg / (SCALE as u64);
        let rem = neg % (SCALE as u64);
        let fm = if rem == 0 {
            q
        } else {
            q + 1
        };
        ((256 - (fm % 256)) % 256) as usize
    }
}

/// The smoothstep fade `t * t * (3 - 2t)`.
fn smooth(t: Fixed) -> (r: Fixed) {
    t.times(t).times(Fixed::from_int(3).minus(Fixed::from_int(2).times(t)))
}

} // verus!
