//! A checker pattern: the sign of a product of sines at ten times the hit
//! point selects one of two child textures.

use vstd::prelude::*;

use crate::color::Color;
use crate::fixed::{fx_mul, Fixed, SCALE};
use crate::trig::sp_sin;
use crate::vec3::{v3, Vec3};

verus! {

pub type Point3 = Vec3;

/// The checker's selector: `sin(10x) * sin(10y) * sin(10z)`.
pub open spec fn checker_sines(p: (int, int, int)) -> int {
    fx_mul(
        fx_mul(sp_sin(fx_mul(10 * SCALE, p.0)), sp_sin(fx_mul(10 * SCALE, p.1))),
        sp_sin(fx_mul(10 * SCALE, p.2)),
    )
}

#[derive(Debug)]
pub struct CheckerTexture {
    pub odd: Box<crate::texture::Texture>,
    pub even: Box<crate::texture::Texture>,
}

impl CheckerTexture {
    pub fn new(odd: Box<crate::texture::Texture>, even: Box<crate::texture::Texture>) -> (r:
        CheckerTexture)
        ensures
            r.odd == odd,
            r.even == even,
    {
        CheckerTexture { odd, even }
    }

    /// A checker of two solid colors.
    pub fn new_solid(odd_color: Color, even_color: Color) -> (r: CheckerTexture)
        ensures
            *r.odd == crate::texture::Texture::Solid(
                crate::texture::SolidColor { color_value: odd_color },
            ),
            *r.even == crate::texture::Texture::Solid(
                crate::texture::SolidColor { color_value: even_color },
            ),
    {
        CheckerTexture {
            odd: Box::new(
                crate::texture::Texture::Solid(crate::texture::SolidColor::new(odd_color)),
            ),
            even: Box::new(
                crate::texture::Texture::Solid(crate::texture::SolidColor::new(even_color)),
            ),
        }
    }

    /// The selector evaluated at a point.
    pub fn sines_at(&self, p: &Point3) -> (r: Fixed)
        ensures
            r.raw as int == checker_sines(v3(*p)),
    {
        let ten = Fixed::from_int(10);
        ten.times(p.x).sin().times(ten.times(p.y).sin()).times(ten.times(p.z).sin())
    }
}

} // verus!
