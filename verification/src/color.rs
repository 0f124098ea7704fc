//! Colors are vectors; this module adds the conversion from accumulated
//! radiance samples to gamma-corrected 8-bit channel values.

use vstd::prelude::*;

use crate::fixed::{fx_div, fx_min, fx_mul, fx_sqrt, sat64, tdiv, Fixed, SCALE};
use crate::vec3::{v3, Vec3};

verus! {

pub type Color = Vec3;

/// 0.999 in raw units, the upper clamp of a channel before scaling by 256.
pub open spec fn clamp_hi() -> int {
    tdiv(999 * SCALE, 1000)
}

/// One accumulated channel mapped to an 8-bit value: average by `scale`,
/// gamma-correct with a square root, clamp to [0, 0.999) and scale by 256,
/// truncating to an integer.  A negative averaged channel maps to 0.
pub open spec fn to_channel(input: int, scale: int) -> int {
    let s = fx_mul(input, scale);
    if s < 0 {
        0
    } else {
        let c = fx_min(fx_sqrt(s), clamp_hi());
        tdiv(fx_mul(256 * SCALE, c), SCALE as int)
    }
}

/// The packed 0x00RRGGBB pixel for the averaged color.
pub open spec fn packed_pixel(col: (int, int, int), samples: int) -> int {
    let s = fx_div(SCALE as int, sat64(samples * SCALE));
    to_channel(col.0, s) * 0x10000 + to_channel(col.1, s) * 0x100 + to_channel(col.2, s)
}

fn to_channel_exec(input: Fixed, scale: Fixed) -> (r: i32)
    ensures
        r as int == to_channel(input.raw as int, scale.raw as int),
        0 <= r <= 255,
{
    let s = input.times(scale);
    if s.is_neg() {
        return 0;
    }
    let c = s.sqrt().min_of(Fixed::from_ratio(999, 1000));
    proof {
        assert(clamp_hi() == 1072668082);
        crate::fixed::lemma_fx_mul_le(256 * SCALE, c.raw as int, 256 * SCALE, 1072668082);
        assert(sat64(tdiv(256 * SCALE * 1072668082, SCALE as int)) == 274603028992int);
        vstd::arithmetic::div_mod::lemma_div_is_ordered(
            fx_mul(256 * SCALE, c.raw as int),
            274603028992int,
            SCALE as int,
        );
        assert(274603028992int / (SCALE as int) == 255);
        vstd::arithmetic::div_mod::lemma_div_pos_is_pos(
            fx_mul(256 * SCALE, c.raw as int),
            SCALE as int,
        );
    }
    let m = Fixed::from_int(256).times(c);
    ((m.raw as u64) / (SCALE as u64)) as i32
}

impl Color {
    /// The red channel under the given per-sample scale.
    pub fn r(&self, scale: Fixed) -> (res: i32)
        ensures
            res as int == to_channel(self.x.raw as int, scale.raw as int),
            0 <= res <= 255,
    {
        to_channel_exec(self.x, scale)
    }

    /// The green channel under the given per-sample scale.
    pub fn g(&self, scale: Fixed) -> (res: i32)
        ensures
            res as int == to_channel(self.y.raw as int, scale.raw as int),
            0 <= res <= 255,
    {
        to_channel_exec(self.y, scale)
    }

    /// The blue channel under the given per-sample scale.
    pub fn b(&self, scale: Fixed) -> (res: i32)
        ensures
            res as int == to_channel(self.z.raw as int, scale.raw as int),
            0 <= res <= 255,
    {
        to_channel_exec(self.z, scale)
    }

    /// The color averaged over `samples_per_pixel` samples, packed as
    /// 0x00RRGGBB.
    pub fn output_32bit(&self, samples_per_pixel: i32) -> (res: u32)
        ensures
            res as int == packed_pixel(v3(*self), samples_per_pixel as int),
    {
        let s = Fixed::from_int(samples_per_pixel as i64).recip();
        let r = self.r(s) as u32;
        let g = self.g(s) as u32;
        let b = self.b(s) as u32;
        r * 0x10000 + g * 0x100 + b
    }
}

} // verus!
