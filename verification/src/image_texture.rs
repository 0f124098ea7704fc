//! A texture backed by decoded image bytes (three channels per pixel).
//! Decoding happens outside the library; the lookup itself is verified
//! never to index out of bounds.

use vstd::prelude::*;

use crate::color::Color;
use crate::fixed::{Fixed, SCALE};
use crate::vec3::Vec3;

verus! {

/// Bytes of a decoded image, row-major, three bytes per pixel.
#[derive(Debug)]
pub struct ImageData {
    pub data: Vec<u8>,
    pub width: usize,
    pub height: usize,
}

#[derive(Debug)]
pub struct ImageTexture {
    pub image: Option<ImageData>,
}

impl ImageTexture {
    /// Whether the byte buffer matches the stated dimensions.
    pub open spec fn wf(&self) -> bool {
        match self.image {
            Some(img) => img.data@.len() == img.width * img.height * 3 && img.width >= 1
                && img.height >= 1 && img.width * img.height * 3 <= usize::MAX,
            None => true,
        }
    }

    /// Wrap decoded bytes; absent data paints the missing-image color.
    pub fn new(image: Option<ImageData>) -> (r: ImageTexture)
        requires
            ({
                let t = ImageTexture { image };
                t.wf()
            }),
        ensures
            r.image == image,
            r.wf(),
    {
        ImageTexture { image }
    }

    /// The texel at clamped coordinates (u, v), scaled to unit channels;
    /// cyan when no image was decoded.
    pub fn value_at(&self, u: Fixed, v: Fixed) -> (r: Color)
        requires
            self.wf(),
    {
        match &self.image {
            Some(img) => {
                let uc = u.max_of(Fixed::zero()).min_of(Fixed::one());
                let vc = Fixed::one().minus(v.max_of(Fixed::zero()).min_of(Fixed::one()));
                let mut i = scale_index(uc, img.width);
                let mut j = scale_index(vc, img.height);
                if i >= img.width {
                    i = img.width - 1;
                }
                if j >= img.height {
                    j = img.height - 1;
                }
                proof {
                    assert(img.width * 3 <= img.width * img.height * 3 && j * (img.width * 3) + i
                        * 3 + 3 <= img.width * img.height * 3) by (nonlinear_arith)
                        requires
                            i < img.width,
                            j < img.height,
                            img.height >= 1,
                    ;
                }
                let start = j * (img.width * 3) + i * 3;
                let cs = Fixed::from_ratio(1, 255);
                let red = cs.times(Fixed::from_int(img.data[start] as i64));
                let green = cs.times(Fixed::from_int(img.data[start + 1] as i64));
                let blue = cs.times(Fixed::from_int(img.data[start + 2] as i64));
                Vec3::new(red, green, blue)
            },
            None => {
                // Missing image cyan.
                Vec3::new(Fixed::zero(), Fixed::one(), Fixed::one())
            },
        }
    }
}

///`(x * n) as usize` for a unit-interval scalar: the integer part of the
/// product, at most `n`.
fn scale_index(x: Fixed, n: usize) -> (r: usize)
    requires
        0 <= x.raw <= SCALE,
    ensures
        r <= n,
{
    proof {
        assert((x.raw as int) * (n as int) <= 0x8000_0000_0000_0000int * 0xffff_ffff_ffff_ffffint)
            by (nonlinear_arith)
            requires
                0 <= x.raw <= 0x7fff_ffff_ffff_ffffi64,
                n as int <= 0xffff_ffff_ffff_ffff,
        ;
    }
    let p: u128 = (x.raw as u128) * (n as u128);
    let q = p / (SCALE as u128);
    proof {
        assert((x.raw as u128) * (n as u128) <= (SCALE as u128) * (n as u128)) by (nonlinear_arith)
            requires
                0 <= x.raw <= SCALE,
        ;
        vstd::arithmetic::div_mod::lemma_div_is_ordered(
            (x.raw as u128) * (n as u128) as int,
            (SCALE as u128) * (n as u128) as int,
            SCALE as int,
        );
        assert(((SCALE as int) * (n as int)) / (SCALE as int) == n) by (nonlinear_arith);
    }
    q as usize
}

} // verus!
