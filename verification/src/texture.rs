//! The color-lookup capability consumed by materials: a closed set of
//! texture variants.  Solid colors and checker patterns are pinned exactly;
//! noise and image lookups are verified not to fault, their values being
//! procedural detail outside the rendering core's contracts.

use vstd::prelude::*;

use crate::checker_texture::{checker_sines, CheckerTexture};
use crate::color::Color;
use crate::fixed::Fixed;
use crate::image_texture::ImageTexture;
use crate::noise_texture::NoiseTexture;
use crate::perlin::perlin_wf;
use crate::vec3::{v3, Vec3};

verus! {

pub type Point3 = Vec3;

#[derive(Debug)]
pub struct SolidColor {
    pub color_value: Color,
}

impl SolidColor {
    pub fn new(color_value: Color) -> (r: SolidColor)
        ensures
            r.color_value == color_value,
    {
        SolidColor { color_value }
    }

    pub fn new_rgb(red: Fixed, green: Fixed, blue: Fixed) -> (r: SolidColor)
        ensures
            r.color_value == (Vec3 { x: red, y: green, z: blue }),
    {
        SolidColor { color_value: Vec3 { x: red, y: green, z: blue } }
    }
}

/// The closed set of textures.
#[derive(Debug)]
pub enum Texture {
    Solid(SolidColor),
    Checker(CheckerTexture),
    Noise(NoiseTexture),
    Image(ImageTexture),
}

/// Structural soundness of a texture: the noise tables have their full
/// size and image data matches its dimensions, so lookups cannot fault.
pub open spec fn texture_wf(t: Texture) -> bool
    decreases t,
{
    match t {
        Texture::Solid(_) => true,
        Texture::Checker(c) => texture_wf(*c.odd) && texture_wf(*c.even),
        Texture::Noise(n) => perlin_wf(n.perlin),
        Texture::Image(i) => i.wf(),
    }
}

/// What a lookup returns: solid colors and checker selections are exact;
/// noise and image texel values are left open.
pub open spec fn tex_value_ok(t: Texture, u: int, v: int, p: (int, int, int), r: Color) -> bool
    decreases t,
{
    match t {
        Texture::Solid(s) => v3(r) == v3(s.color_value),
        Texture::Checker(c) => if checker_sines(p) < 0 {
            tex_value_ok(*c.odd, u, v, p, r)
        } else {
            tex_value_ok(*c.even, u, v, p, r)
        },
        Texture::Noise(_) => true,
        Texture::Image(_) => true,
    }
}

impl Texture {
    /// The texture's color at surface coordinates (u, v) and point `p`.
    pub fn value(&self, u: Fixed, v: Fixed, p: &Point3) -> (r: Color)
        requires
            texture_wf(*self),
        ensures
            tex_value_ok(*self, u.raw as int, v.raw as int, v3(*p), r),
        decreases *self,
    {
        match self {
            Texture::Solid(s) => s.color_value.copy(),
            Texture::Checker(c) => {
                if c.sines_at(p).is_neg() {
                    c.odd.value(u, v, p)
                } else {
                    c.even.value(u, v, p)
                }
            },
            Texture::Noise(n) => n.value_at(p),
            Texture::Image(i) => i.value_at(u, v),
        }
    }
}

} // verus!
