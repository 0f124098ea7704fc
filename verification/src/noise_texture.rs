//! A texture driven by gradient noise, scaled in space.

use vstd::prelude::*;

use crate::color::Color;
use crate::fixed::Fixed;
use crate::perlin::{perlin_wf, Perlin};
use crate::rng_float::RngGen;
use crate::vec3::Vec3;

verus! {

pub type Point3 = Vec3;

#[derive(Debug)]
pub struct NoiseTexture {
    pub perlin: Perlin,
    pub scale: Fixed,
}

impl NoiseTexture {
    pub fn new(scale: Fixed, rng: &mut RngGen) -> (r: NoiseTexture)
        ensures
            perlin_wf(r.perlin),
            r.scale == scale,
    {
        NoiseTexture { perlin: Perlin::new(rng), scale }
    }

    /// A gray level from the noise at the scaled point:
    /// `0.5 * (1 + noise(scale * p))` on each channel.
    pub fn value_at(&self, p: &Point3) -> (r: Color)
        requires
            perlin_wf(self.perlin),
    {
        let n = self.perlin.noise(&p.scale(self.scale));
        Color::one().scale(Fixed::from_ratio(1, 2)).scale(Fixed::one().plus(n))
    }
}

} // verus!
