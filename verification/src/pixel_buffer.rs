//! The pixel buffer: packed 0x00RRGGBB pixels with a fully specified
//! plain-text (P3) image serialization.

use vstd::prelude::*;

use crate::color::Color;
use crate::fixed::Fixed;

verus! {

/// Decimal digits of a non-negative number, most significant first.
pub open spec fn dec(n: int) -> Seq<u8>
    decreases n,
{
    if n < 10 {
        seq![(48 + if n >= 0 {
            n
        } else {
            0
        }) as u8]
    } else {
        dec(n / 10).push((48 + n % 10) as u8)
    }
}

/// One pixel's line: the three channel bytes in decimal, space separated.
pub open spec fn ppm_pixel(p: u32) -> Seq<u8> {
    dec(((p >> 16u32) & 0xff) as int) + seq![32u8] + dec(((p >> 8u32) & 0xff) as int) + seq![32u8]
        + dec((p & 0xff) as int) + seq![10u8]
}

/// The pixels of row `j` from column `i` on.
pub open spec fn ppm_cells(buff: Seq<u32>, w: int, j: int, i: int) -> Seq<u8>
    decreases w - i,
{
    if i < 0 || i >= w {
        Seq::empty()
    } else {
        ppm_pixel(buff[j * w + i]) + ppm_cells(buff, w, j, i + 1)
    }
}

/// The first `rows` rows, emitted bottom row first.
pub open spec fn ppm_rows(buff: Seq<u32>, w: int, rows: int) -> Seq<u8>
    decreases rows,
{
    if rows <= 0 {
        Seq::empty()
    } else {
        ppm_cells(buff, w, rows - 1, 0) + ppm_rows(buff, w, rows - 1)
    }
}

/// The P3 header: magic, dimensions, and the maximum channel value.
pub open spec fn ppm_header(w: int, h: int) -> Seq<u8> {
    seq![80u8, 51u8, 10u8] + dec(w) + seq![32u8] + dec(h) + seq![10u8, 50u8, 53u8, 53u8, 10u8]
}

/// The full serialized image.
pub open spec fn ppm_bytes(buff: Seq<u32>, w: int, h: int) -> Seq<u8> {
    ppm_header(w, h) + ppm_rows(buff, w, h)
}

/// Every byte of the serialization is ASCII.
pub proof fn lemma_dec_ascii(n: int)
    ensures
        forall|i: int| 0 <= i < dec(n).len() ==> 32 <= #[trigger] dec(n)[i] < 128,
    decreases n,
{
    if n < 10 {
        assert(dec(n).len() == 1);
        assert(32 <= dec(n)[0] < 128);
    } else {
        lemma_dec_ascii(n / 10);
        vstd::arithmetic::div_mod::lemma_mod_bound(n, 10);
        assert forall|i: int| 0 <= i < dec(n).len() implies 32 <= #[trigger] dec(n)[i] < 128 by {
            if i < dec(n / 10).len() {
                assert(dec(n)[i] == dec(n / 10)[i]);
            } else {
                assert(dec(n)[i] == (48 + n % 10) as u8);
            }
        }
    }
}

fn push_dec(out: &mut Vec<u8>, n: u64)
    ensures
        final(out)@ == old(out)@ + dec(n as int),
        forall|i: int|
            old(out)@.len() <= i < final(out)@.len() ==> 48 <= #[trigger] final(out)@[i] < 58,
    decreases n,
{
    proof {
        lemma_dec_ascii(n as int);
    }
    if n >= 10 {
        push_dec(out, n / 10);
    }
    out.push((48 + (n % 10)) as u8);
    proof {
        assert(out@ =~= old(out)@ + dec(n as int));
    }
}

#[derive(Debug)]
pub struct PixelBuffer {
    pub buff: Vec<u32>,
    pub width: usize,
    pub height: usize,
}

/// Relies on String::from_utf8_lossy: ASCII bytes convert to the same
/// characters, one each.
#[verifier::external_body]
fn ascii_to_string(v: &Vec<u8>) -> (r: String)
    requires
        forall|i: int| 0 <= i < v@.len() ==> #[trigger] v@[i] < 128,
    ensures
        r@ == v@.map_values(|b: u8| b as char),
{
    String::from_utf8_lossy(v.as_slice()).into_owned()
}

impl PixelBuffer {
    pub open spec fn wf(&self) -> bool {
        self.buff@.len() == self.width * self.height && self.width * self.height <= usize::MAX
    }

    /// A black buffer of the given dimensions.
    pub fn new(width: usize, height: usize) -> (r: PixelBuffer)
        requires
            width * height <= usize::MAX,
        ensures
            r.width == width,
            r.height == height,
            r.wf(),
            forall|i: int| 0 <= i < r.buff@.len() ==> #[trigger] r.buff@[i] == 0,
    {
        let n = width * height;
        let mut buff: Vec<u32> = Vec::new();
        let mut i: usize = 0;
        while i < n
            invariant
                i <= n,
                buff@.len() == i,
                forall|k: int| 0 <= k < i ==> #[trigger] buff@[k] == 0,
            decreases n - i,
        {
            buff.push(0);
            i = i + 1;
        }
        PixelBuffer { buff, width, height }
    }

    pub fn width(&self) -> (r: usize)
        ensures
            r == self.width,
    {
        self.width
    }

    pub fn height(&self) -> (r: usize)
        ensures
            r == self.height,
    {
        self.height
    }

    /// Width over height.
    pub fn aspect_ratio(&self) -> (r: Fixed)
        ensures
            0 < self.height <= i64::MAX && self.width <= i64::MAX ==> r.raw as int
                == crate::fixed::sat64(
                crate::fixed::sdiv(self.width * crate::fixed::SCALE, self.height as int),
            ),
    {
        #[verifier::truncate]
        let w = self.width as i64;
        #[verifier::truncate]
        let h = self.height as i64;
        Fixed::from_ratio(w, h)
    }

    pub fn at(&self, x: usize, y: usize) -> (r: &u32)
        requires
            self.wf(),
            x < self.width,
            y < self.height,
        ensures
            *r == self.buff@[x + self.width * y],
    {
        proof {
            lemma_index_in_bounds(x as int, y as int, self.width as int, self.height as int);
        }
        &self.buff[x + self.width * y]
    }

    /// Store the averaged color at (x, y) as a packed pixel.
    pub fn set_pixel(&mut self, x: usize, y: usize, color: &Color, samples: i32)
        requires
            old(self).wf(),
            x < old(self).width,
            y < old(self).height,
        ensures
            final(self).wf(),
            final(self).width == old(self).width,
            final(self).height == old(self).height,
            final(self).buff@.len() == old(self).buff@.len(),
            final(self).buff@[x + old(self).width * y] as int == crate::color::packed_pixel(
                crate::vec3::v3(*color),
                samples as int,
            ),
            forall|k: int|
                0 <= k < old(self).buff@.len() && k != x + old(self).width * y
                    ==> final(self).buff@[k] == old(self).buff@[k],
    {
        proof {
            lemma_index_in_bounds(x as int, y as int, self.width as int, self.height as int);
        }
        let p = color.output_32bit(samples);
        let idx = x + self.width * y;
        self.buff.set(idx, p);
    }

    pub fn buffer(&self) -> (r: &Vec<u32>)
        ensures
            r@ == self.buff@,
    {
        &self.buff
    }

    /// The buffer as a plain-text P3 image, rows emitted bottom-up.
    #[verifier::rlimit(100)]
    #[verifier::spinoff_prover]
    pub fn to_ppm(&self) -> (r: String)
        requires
            self.wf(),
        ensures
            r@ == ppm_bytes(self.buff@, self.width as int, self.height as int).map_values(
                |b: u8| b as char,
            ),
    {
        let mut out: Vec<u8> = Vec::new();
        out.push(80);
        out.push(51);
        out.push(10);
        push_dec(&mut out, self.width as u64);
        out.push(32);
        push_dec(&mut out, self.height as u64);
        out.push(10);
        out.push(50);
        out.push(53);
        out.push(53);
        out.push(10);
        proof {
            assert(out@ =~= ppm_header(self.width as int, self.height as int));
        }
        let mut jj: usize = 0;
        while jj < self.height
            invariant
                self.wf(),
                jj <= self.height,
                out@ == ppm_header(self.width as int, self.height as int) + ppm_rows_prefix(
                    self.buff@,
                    self.width as int,
                    self.height as int,
                    jj as int,
                ),
                forall|i: int| 0 <= i < out@.len() ==> 10 <= #[trigger] out@[i] < 128,
            decreases self.height - jj,
        {
            let j = self.height - 1 - jj;
            let mut i: usize = 0;
            while i < self.width
                invariant
                    self.wf(),
                    jj < self.height,
                    j == self.height - 1 - jj,
                    i <= self.width,
                    out@ == ppm_header(self.width as int, self.height as int) + ppm_rows_prefix(
                        self.buff@,
                        self.width as int,
                        self.height as int,
                        jj as int,
                    ) + ppm_cells_prefix(self.buff@, self.width as int, j as int, i as int),
                forall|k: int| 0 <= k < out@.len() ==> 10 <= #[trigger] out@[k] < 128,
                decreases self.width - i,
            {
                let p = *self.at(i, j);
                let red = (p >> 16u32) & 0xff;
                let green = (p >> 8u32) & 0xff;
                let blue = p & 0xff;
                push_dec(&mut out, red as u64);
                out.push(32);
                push_dec(&mut out, green as u64);
                out.push(32);
                push_dec(&mut out, blue as u64);
                out.push(10);
                proof {
                    lemma_cells_prefix_step(self.buff@, self.width as int, j as int, i as int);
                    assert(out@ =~= ppm_header(self.width as int, self.height as int)
                        + ppm_rows_prefix(
                        self.buff@,
                        self.width as int,
                        self.height as int,
                        jj as int,
                    ) + ppm_cells_prefix(self.buff@, self.width as int, j as int, i + 1));
                }
                i = i + 1;
            }
            proof {
                lemma_cells_prefix_all(self.buff@, self.width as int, j as int);
                lemma_rows_prefix_step(
                    self.buff@,
                    self.width as int,
                    self.height as int,
                    jj as int,
                );
                assert(out@ =~= ppm_header(self.width as int, self.height as int)
                    + ppm_rows_prefix(
                    self.buff@,
                    self.width as int,
                    self.height as int,
                    jj + 1,
                ));
            }
            jj = jj + 1;
        }
        proof {
            lemma_rows_prefix_all(self.buff@, self.width as int, self.height as int);
            assert(out@ =~= ppm_bytes(self.buff@, self.width as int, self.height as int));
        }
        ascii_to_string(&out)
    }
}

/// The rows already emitted after `jj` outer iterations: rows `h-1` down
/// to `h-jj`.
pub open spec fn ppm_rows_prefix(buff: Seq<u32>, w: int, h: int, jj: int) -> Seq<u8>
    decreases jj,
{
    if jj <= 0 {
        Seq::empty()
    } else {
        ppm_rows_prefix(buff, w, h, jj - 1) + ppm_cells(buff, w, h - jj, 0)
    }
}

/// The cells of row `j` already emitted: columns 0 up to `i`.
pub open spec fn ppm_cells_prefix(buff: Seq<u32>, w: int, j: int, i: int) -> Seq<u8>
    decreases i,
{
    if i <= 0 {
        Seq::empty()
    } else {
        ppm_cells_prefix(buff, w, j, i - 1) + ppm_pixel(buff[j * w + (i - 1)])
    }
}

proof fn lemma_cells_prefix_step(buff: Seq<u32>, w: int, j: int, i: int)
    requires
        0 <= i < w,
    ensures
        ppm_cells_prefix(buff, w, j, i + 1) =~= ppm_cells_prefix(buff, w, j, i) + ppm_pixel(
            buff[j * w + i],
        ),
{
}

/// A complete prefix of a row is the row.
proof fn lemma_cells_prefix_all(buff: Seq<u32>, w: int, j: int)
    requires
        w >= 0,
    ensures
        ppm_cells_prefix(buff, w, j, w) =~= ppm_cells(buff, w, j, 0),
{
    lemma_cells_split(buff, w, j, 0);
}

/// The row splits at any column into the emitted prefix and the rest.
proof fn lemma_cells_split(buff: Seq<u32>, w: int, j: int, i: int)
    requires
        0 <= i <= w,
    ensures
        ppm_cells_prefix(buff, w, j, w) =~= ppm_cells_prefix(buff, w, j, i) + ppm_cells(
            buff,
            w,
            j,
            i,
        ),
    decreases w - i,
{
    if i < w {
        lemma_cells_split(buff, w, j, i + 1);
        lemma_cells_prefix_step(buff, w, j, i);
    }
}

proof fn lemma_rows_prefix_step(buff: Seq<u32>, w: int, h: int, jj: int)
    requires
        0 <= jj,
    ensures
        ppm_rows_prefix(buff, w, h, jj + 1) =~= ppm_rows_prefix(buff, w, h, jj) + ppm_cells(
            buff,
            w,
            h - jj - 1,
            0,
        ),
{
}

/// All rows emitted equals the serialization's row block.
proof fn lemma_rows_prefix_all(buff: Seq<u32>, w: int, h: int)
    requires
        h >= 0,
    ensures
        ppm_rows_prefix(buff, w, h, h) =~= ppm_rows(buff, w, h),
{
    lemma_rows_split(buff, w, h, 0);
}

proof fn lemma_rows_split(buff: Seq<u32>, w: int, h: int, jj: int)
    requires
        0 <= jj <= h,
    ensures
        ppm_rows_prefix(buff, w, h, h) =~= ppm_rows_prefix(buff, w, h, jj) + ppm_rows(
            buff,
            w,
            h - jj,
        ),
    decreases h - jj,
{
    if jj < h {
        lemma_rows_split(buff, w, h, jj + 1);
        lemma_rows_prefix_step(buff, w, h, jj);
    }
}

proof fn lemma_index_in_bounds(x: int, y: int, w: int, h: int)
    by (nonlinear_arith)
    requires
        0 <= x < w,
        0 <= y < h,
    ensures
        0 <= x + w * y < w * h,
{
}

} // verus!
