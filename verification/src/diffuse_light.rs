//! The emissive material: never scatters; its texture supplies radiance
//! to integrators that query emission.

use vstd::prelude::*;

use crate::color::Color;
use crate::texture::{texture_wf, SolidColor, Texture};

verus! {

#[derive(Debug)]
pub struct DiffuseLight {
    pub emit: Texture,
}

impl DiffuseLight {
    pub fn new(emit: Texture) -> (r: DiffuseLight)
        ensures
            r.emit == emit,
    {
        DiffuseLight { emit }
    }

    pub fn new_from_color(c: &Color) -> (r: DiffuseLight)
        ensures
            r.emit == Texture::Solid(SolidColor { color_value: *c }),
            texture_wf(r.emit),
    {
        DiffuseLight { emit: Texture::Solid(SolidColor::new(c.copy())) }
    }
}

} // verus!
