//! The pixel packer.
//!
//! The controller stores two horizontally adjacent pixels per wire byte: the
//! even-column pixel in the high nibble, its odd-column neighbour in the low
//! nibble, each truncated to 4 bits.  [`WS1in5::get_buffer`] converts a
//! stream of `(x, y, gray)` triples into that packed row-major layout.

use vstd::arithmetic::div_mod::lemma_fundamental_div_mod;
use vstd::prelude::*;

use crate::screen::WS1in5;
use crate::Error;

verus! {

/// The high (even-pixel) nibble of a packed byte.
pub open spec fn nibble_high(b: u8) -> u8 {
    b >> 4
}

/// The low (odd-pixel) nibble of a packed byte.
pub open spec fn nibble_low(b: u8) -> u8 {
    b & 0x0f
}

/// Index of the byte that stores pixel `(x, y)` in a packed buffer of the
/// given width: packed column `x / 2` in row `y`, rows laid out one after
/// another at `width / 2` bytes each.
pub open spec fn pixel_addr(x: int, y: int, width: int) -> int {
    x / 2 + y * (width / 2)
}

/// The 4-bit value that a packed buffer holds for pixel `(x, y)`.
pub open spec fn pixel_nibble(buf: Seq<u8>, x: int, y: int, width: int) -> u8 {
    if x % 2 == 0 {
        nibble_high(buf[pixel_addr(x, y, width)])
    } else {
        nibble_low(buf[pixel_addr(x, y, width)])
    }
}

/// Overwriting the high nibble stores the 4-bit value exactly and leaves the
/// low nibble alone.
proof fn lemma_set_high(b: u8, c: u8)
    requires
        c < 16,
    ensures
        ((b & 0x0f) | (c << 4)) >> 4 == c,
        ((b & 0x0f) | (c << 4)) & 0x0f == b & 0x0f,
{
    assert((((b & 0x0f) | (c << 4)) >> 4 == c) && (((b & 0x0f) | (c << 4)) & 0x0f == b & 0x0f))
        by (bit_vector)
        requires
            c < 16,
    ;
}

/// Overwriting the low nibble stores the 4-bit value exactly and leaves the
/// high nibble alone.
proof fn lemma_set_low(b: u8, c: u8)
    requires
        c < 16,
    ensures
        ((b & 0xf0) | c) & 0x0f == c,
        ((b & 0xf0) | c) >> 4 == b >> 4,
{
    assert((((b & 0xf0) | c) & 0x0f == c) && (((b & 0xf0) | c) >> 4 == b >> 4)) by (bit_vector)
        requires
            c < 16,
    ;
}

/// The byte index of an on-raster pixel lies inside the packed buffer.
proof fn lemma_addr_bounds(x: int, y: int, width: int, height: int)
    requires
        width % 2 == 0,
        0 <= x < width,
        0 <= y < height,
    ensures
        0 <= pixel_addr(x, y, width) < (width / 2) * height,
{
    let half = width / 2;
    lemma_fundamental_div_mod(x, 2);
    assert(x / 2 < half);
    assert(x / 2 + y * half < half * height) by (nonlinear_arith)
        requires
            0 <= x / 2 < half,
            0 <= y < height,
    ;
}

/// Two distinct on-raster pixels never share both a byte index and a nibble
/// position: the packed layout is injective.
proof fn lemma_addr_injective(x1: int, y1: int, x2: int, y2: int, width: int)
    requires
        width % 2 == 0,
        0 <= x1 < width,
        0 <= y1,
        0 <= x2 < width,
        0 <= y2,
        pixel_addr(x1, y1, width) == pixel_addr(x2, y2, width),
        x1 % 2 == x2 % 2,
    ensures
        x1 == x2 && y1 == y2,
{
    let half = width / 2;
    lemma_fundamental_div_mod(x1, 2);
    lemma_fundamental_div_mod(x2, 2);
    assert(x1 / 2 < half && x2 / 2 < half);
    assert(x1 / 2 == x2 / 2 && y1 == y2) by (nonlinear_arith)
        requires
            x1 / 2 + y1 * half == x2 / 2 + y2 * half,
            0 <= x1 / 2 < half,
            0 <= x2 / 2 < half,
            0 <= y1,
            0 <= y2,
    ;
}

impl WS1in5 {
    /// Pack a stream of `(x, y, gray)` pixel triples, one per pixel of a
    /// `width` x `height` raster, into the controller's 4-bit wire format.
    ///
    /// The width must be even — two pixels share each byte, so a caller with
    /// odd content rounds the raster up beforehand.  A stream whose length is
    /// not exactly `width * height` fails with [`Error::OutOfBounds`] and
    /// nothing is packed.  Each pixel's gray value lands, truncated to 4
    /// bits, in its own nibble of byte `x / 2 + y * (width / 2)`: the high
    /// nibble for even `x`, the low nibble for odd `x`.
    pub fn get_buffer(
        &self,
        pixels: &Vec<(usize, usize, u8)>,
        width: usize,
        height: usize,
    ) -> (r: Result<Vec<u8>, Error>)
        requires
            width % 2 == 0,
            width * height <= usize::MAX,
            forall|t: int|
                0 <= t < pixels@.len() ==> (#[trigger] pixels@[t]).0 < width && pixels@[t].1
                    < height,
            forall|s: int, t: int|
                #![trigger pixels@[s], pixels@[t]]
                0 <= s < t < pixels@.len() ==> !(pixels@[s].0 == pixels@[t].0 && pixels@[s].1
                    == pixels@[t].1),
        ensures
            match r {
                Ok(buf) => {
                    &&& pixels@.len() == width * height
                    &&& buf@.len() == (width / 2) * height
                    &&& forall|t: int|
                        0 <= t < pixels@.len() ==> pixel_nibble(
                            buf@,
                            (#[trigger] pixels@[t]).0 as int,
                            pixels@[t].1 as int,
                            width as int,
                        ) == pixels@[t].2 % 16
                },
                Err(e) => e == Error::OutOfBounds && pixels@.len() != width * height,
            },
    {
        let half = width / 2;
        proof {
            assert(half * height <= width * height) by (nonlinear_arith)
                requires
                    0 <= half <= width,
                    0 <= height,
            ;
        }
        let mut buf: Vec<u8> = filled_buffer(half * height, 0xff);

        if pixels.len() != height * width {
            return Err(Error::OutOfBounds);
        }

        let mut k: usize = 0;
        while k < pixels.len()
            invariant
                k <= pixels@.len(),
                half == width / 2,
                width % 2 == 0,
                width * height <= usize::MAX,
                half * height <= usize::MAX,
                pixels@.len() == width * height,
                buf@.len() == half * height,
                forall|t: int|
                    0 <= t < pixels@.len() ==> (#[trigger] pixels@[t]).0 < width && pixels@[t].1
                        < height,
                forall|s: int, t: int|
                    #![trigger pixels@[s], pixels@[t]]
                    0 <= s < t < pixels@.len() ==> !(pixels@[s].0 == pixels@[t].0 && pixels@[s].1
                        == pixels@[t].1),
                forall|t: int|
                    0 <= t < k ==> pixel_nibble(
                        buf@,
                        (#[trigger] pixels@[t]).0 as int,
                        pixels@[t].1 as int,
                        width as int,
                    ) == pixels@[t].2 % 16,
            decreases pixels@.len() - k,
        {
            let triple = pixels[k];
            let x = triple.0;
            let y = triple.1;
            let gray = triple.2;

            proof {
                lemma_addr_bounds(x as int, y as int, width as int, height as int);
                lemma_fundamental_div_mod(x as int, 2);
            }
            let addr = x / 2 + y * half;
            let color = gray % 16;
            let ghost pre = buf@;

            let b = buf[addr];
            if x % 2 == 0 {
                buf[addr] = (b & 0x0f) | (color << 4);
                proof {
                    lemma_set_high(b, color);
                }
            } else {
                buf[addr] = (b & 0xf0) | color;
                proof {
                    lemma_set_low(b, color);
                }
            }

            proof {
                assert forall|t: int| 0 <= t < k + 1 implies pixel_nibble(
                    buf@,
                    (#[trigger] pixels@[t]).0 as int,
                    pixels@[t].1 as int,
                    width as int,
                ) == pixels@[t].2 % 16 by {
                    let xt = pixels@[t].0 as int;
                    let yt = pixels@[t].1 as int;
                    lemma_addr_bounds(xt, yt, width as int, height as int);
                    if t < k {
                        if pixel_addr(xt, yt, width as int) == addr as int {
                            if xt % 2 == x as int % 2 {
                                lemma_addr_injective(xt, yt, x as int, y as int, width as int);
                                assert(false);
                            }
                        } else {
                            assert(buf@[pixel_addr(xt, yt, width as int)] == pre[pixel_addr(
                                xt,
                                yt,
                                width as int,
                            )]);
                        }
                    }
                }
            }

            k = k + 1;
        }

        Ok(buf)
    }
}

/// A buffer of `n` copies of one byte.
pub(crate) fn filled_buffer(n: usize, value: u8) -> (r: Vec<u8>)
    ensures
        r@ == Seq::new(n as nat, |_i: int| value),
{
    let mut r: Vec<u8> = Vec::new();
    let mut i: usize = 0;
    while i < n
        invariant
            i <= n,
            r@ =~= Seq::new(i as nat, |_i: int| value),
        decreases n - i,
    {
        r.push(value);
        proof {
            assert(r@ =~= Seq::new((i + 1) as nat, |_i: int| value));
        }
        i = i + 1;
    }
    r
}

} // verus!
