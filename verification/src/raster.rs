//! Grayscale rasters.
//!
//! Text is rasterized by an outside font collaborator into a plain 8-bit
//! grayscale canvas.  [`GrayRaster`] is the crate's own form of such a
//! canvas: row-major bytes with explicit dimensions, so every later step —
//! enumeration, rotation, packing — is verified against its contents.

use vstd::arithmetic::div_mod::{lemma_fundamental_div_mod, lemma_fundamental_div_mod_converse};
use vstd::prelude::*;

verus! {

/// A row-major 8-bit grayscale raster: pixel `(x, y)` is byte `y * width + x`.
pub struct GrayRaster {
    /// Width in pixels.
    pub width: usize,
    /// Height in pixels.
    pub height: usize,
    /// The pixel bytes, one full row after another.
    pub pixels: Vec<u8>,
}

/// The row-major sequence read back to front: the raster turned 180 degrees,
/// as mounted panels that hang upside down need.
pub open spec fn rotated_180(pixels: Seq<u8>) -> Seq<u8> {
    Seq::new(pixels.len(), |i: int| pixels[pixels.len() - 1 - i])
}

impl GrayRaster {
    /// The byte count matches the dimensions.
    pub open spec fn wf(&self) -> bool {
        self.pixels@.len() == self.width * self.height
    }

    /// Enumerate the raster as `(x, y, gray)` triples in row-major order:
    /// entry `y * width + x` is `(x, y, pixels[y * width + x])`.  The triples
    /// cover every pixel exactly once, which is just what the pixel packer's
    /// stream contract asks for.
    pub fn pixel_triples(&self) -> (r: Vec<(usize, usize, u8)>)
        requires
            self.wf(),
        ensures
            r@.len() == self.width * self.height,
            forall|px: int, py: int|
                #![trigger r@[py * self.width + px]]
                0 <= px < self.width && 0 <= py < self.height ==> r@[py * self.width + px] == (
                    px as usize,
                    py as usize,
                    self.pixels@[py * self.width + px],
                ),
            forall|t: int|
                0 <= t < r@.len() ==> (#[trigger] r@[t]).0 < self.width && r@[t].1 < self.height,
            forall|s: int, t: int|
                #![trigger r@[s], r@[t]]
                0 <= s < t < r@.len() ==> !(r@[s].0 == r@[t].0 && r@[s].1 == r@[t].1),
    {
        let width = self.width;
        let height = self.height;
        let n = self.pixels.len();
        let mut r: Vec<(usize, usize, u8)> = Vec::new();
        let mut y: usize = 0;
        while y < height
            invariant
                y <= height,
                self.wf(),
                width == self.width,
                height == self.height,
                n == width * height,
                r@.len() == y * width,
                forall|t: int|
                    0 <= t < r@.len() ==> #[trigger] r@[t] == (
                        ((t % (width as int)) as usize),
                        ((t / (width as int)) as usize),
                        self.pixels@[t],
                    ),
            decreases height - y,
        {
            let mut x: usize = 0;
            proof {
                assert(y * width + width <= height * width) by (nonlinear_arith)
                    requires
                        y < height,
                        0 <= width,
                ;
                assert(height * width == width * height) by (nonlinear_arith);
            }
            while x < width
                invariant
                    x <= width,
                    y < height,
                    self.wf(),
                    width == self.width,
                    height == self.height,
                    n == width * height,
                    y * width + width <= width * height,
                    r@.len() == y * width + x,
                    forall|t: int|
                        0 <= t < r@.len() ==> #[trigger] r@[t] == (
                            ((t % (width as int)) as usize),
                            ((t / (width as int)) as usize),
                            self.pixels@[t],
                        ),
                decreases width - x,
            {
                proof {
                    lemma_fundamental_div_mod_converse(
                        (y * width + x) as int,
                        width as int,
                        y as int,
                        x as int,
                    );
                }
                r.push((x, y, self.pixels[y * width + x]));
                x = x + 1;
            }
            proof {
                assert((y + 1) * width == y * width + width) by (nonlinear_arith);
            }
            y = y + 1;
        }

        proof {
            assert(r@.len() == height * width);
            assert(height * width == width * height) by (nonlinear_arith);
            assert forall|px: int, py: int|
                0 <= px < width && 0 <= py < height implies #[trigger] r@[py * width + px] == (
                px as usize,
                py as usize,
                self.pixels@[py * width + px],
            ) by {
                assert(0 <= py * width + px && py * width + px < width * height)
                    by (nonlinear_arith)
                    requires
                        0 <= px < width,
                        0 <= py < height,
                ;
                lemma_fundamental_div_mod_converse(py * width + px, width as int, py, px);
            }
            assert forall|t: int| 0 <= t < r@.len() implies (#[trigger] r@[t]).0 < width
                && r@[t].1 < height by {
                lemma_fundamental_div_mod(t, width as int);
                assert(t / (width as int) < height) by (nonlinear_arith)
                    requires
                        (width as int) * (t / (width as int)) + t % (width as int) == t,
                        0 <= t % (width as int) < width,
                        t < width * height,
                ;
            }
            assert forall|s: int, t: int|
                #![trigger r@[s], r@[t]]
                0 <= s < t < r@.len() implies !(r@[s].0 == r@[t].0 && r@[s].1 == r@[t].1) by {
                if r@[s].0 == r@[t].0 && r@[s].1 == r@[t].1 {
                    lemma_fundamental_div_mod(s, width as int);
                    lemma_fundamental_div_mod(t, width as int);
                }
            }
        }

        r
    }

    /// Turn the raster 180 degrees: pixel `(x, y)` moves to
    /// `(width - 1 - x, height - 1 - y)`, which for a row-major layout is a
    /// plain reversal of the byte sequence.
    pub fn rotate_180(&self) -> (r: GrayRaster)
        requires
            self.wf(),
        ensures
            r.wf(),
            r.width == self.width,
            r.height == self.height,
            r.pixels@ == rotated_180(self.pixels@),
    {
        let n = self.pixels.len();
        let mut out: Vec<u8> = Vec::new();
        let mut i: usize = 0;
        while i < n
            invariant
                i <= n,
                n == self.pixels@.len(),
                out@.len() == i,
                forall|t: int| 0 <= t < i ==> #[trigger] out@[t] == self.pixels@[n - 1 - t],
            decreases n - i,
        {
            out.push(self.pixels[n - 1 - i]);
            i = i + 1;
        }
        proof {
            assert(out@ =~= rotated_180(self.pixels@));
        }
        GrayRaster { width: self.width, height: self.height, pixels: out }
    }
}

} // verus!
