//! Drawing rasterized text.
//!
//! The font collaborator hands the driver a finished grayscale canvas; the
//! functions here turn it to panel orientation, pack it, place it — directly,
//! centered, or mirrored about both axes for upside-down mounts — and stream
//! it, with the exact recorded transcript stated in every contract.

use vstd::arithmetic::div_mod::{lemma_fundamental_div_mod, lemma_fundamental_div_mod_converse};
use vstd::prelude::*;

use crate::packing::{nibble_high, nibble_low, pixel_addr, pixel_nibble};
use crate::raster::{rotated_180, GrayRaster};
use crate::screen::{window_ops, write_coords_ok, WS1in5};
use crate::transport::{data_ops, TransportOp};
use crate::Error;
use crate::{OLED_HEIGHT, OLED_WIDTH};

verus! {

/// The wire byte that stores an even-column pixel (high nibble) and its odd
/// neighbour (low nibble), each truncated to 4 bits.
pub open spec fn pack_byte(even_px: u8, odd_px: u8) -> u8 {
    ((even_px % 16) * 16 + (odd_px % 16)) as u8
}

/// The packed wire image of a row-major `width` x `height` raster: row-major
/// bytes, each combining two horizontally adjacent pixels.
pub open spec fn packed_seq(pixels: Seq<u8>, width: int, height: int) -> Seq<u8> {
    Seq::new(
        ((width / 2) * height) as nat,
        |k: int|
            {
                let i = k / (width / 2);
                let j = k % (width / 2);
                pack_byte(pixels[i * width + 2 * j], pixels[i * width + 2 * j + 1])
            },
    )
}

/// A byte is its high nibble scaled by sixteen plus its low nibble.
proof fn lemma_byte_from_nibbles(b: u8)
    ensures
        (b >> 4) < 16,
        b == (b >> 4) * 16 + (b & 0x0f),
{
    assert((b >> 4) < 16 && b == (b >> 4) * 16 + (b & 0x0f)) by (bit_vector);
}

impl WS1in5 {
    /// Pack a whole raster into the controller's wire format.
    ///
    /// This is [`WS1in5::get_buffer`] applied to the raster's own row-major
    /// pixel stream, which always has the right pixel count, so packing a
    /// well-formed even-width raster cannot fail.
    pub fn pack_raster(&self, raster: &GrayRaster) -> (r: Vec<u8>)
        requires
            raster.wf(),
            raster.width % 2 == 0,
        ensures
            r@ == packed_seq(raster.pixels@, raster.width as int, raster.height as int),
    {
        let width = raster.width;
        let height = raster.height;
        // The byte count is a machine word, so `width * height` is too.
        let _n = raster.pixels.len();
        let triples = raster.pixel_triples();
        let r = self.get_buffer(&triples, width, height);
        match r {
            Ok(buf) => {
                proof {
                    let w = width as int;
                    let h = height as int;
                    let half = w / 2;
                    let pix = raster.pixels@;
                    lemma_fundamental_div_mod(w, 2);
                    assert(w == 2 * half);
                    assert forall|k: int|
                        0 <= k < (w / 2) * h implies buf@[k] == packed_seq(pix, w, h)[k] by {
                        assert(half > 0 && h > 0) by (nonlinear_arith)
                            requires
                                0 <= k < half * h,
                                0 <= half,
                                0 <= h,
                        ;
                        lemma_fundamental_div_mod(k, half);
                        let i = k / half;
                        let j = k % half;
                        assert(0 <= i && i < h) by (nonlinear_arith)
                            requires
                                half * i + j == k,
                                0 <= j < half,
                                0 <= k < half * h,
                                half > 0,
                        ;
                        let thi = i * w + 2 * j;
                        assert(0 <= i * w + 2 * j && i * w + 2 * j + 1 < w * h)
                            by (nonlinear_arith)
                            requires
                                w == 2 * half,
                                0 <= i < h,
                                0 <= j < half,
                        ;
                        assert(triples@[i * w + 2 * j] == (
                            (2 * j) as usize,
                            i as usize,
                            pix[i * w + 2 * j],
                        ));
                        assert(triples@[i * w + (2 * j + 1)] == (
                            (2 * j + 1) as usize,
                            i as usize,
                            pix[i * w + (2 * j + 1)],
                        ));
                        lemma_fundamental_div_mod_converse(2 * j, 2, j, 0);
                        lemma_fundamental_div_mod_converse(2 * j + 1, 2, j, 1);
                        assert((2 * j) / 2 == j && (2 * j + 1) / 2 == j);
                        assert(half * i + j == k);
                        assert(pixel_addr(2 * j, i, w) == j + i * half);
                        assert(i * half == half * i) by (nonlinear_arith);
                        assert(pixel_addr(2 * j, i, w) == k);
                        assert(pixel_addr(2 * j + 1, i, w) == k);
                        assert(pixel_nibble(buf@, 2 * j, i, w) == pix[thi] % 16);
                        assert(pixel_nibble(buf@, 2 * j + 1, i, w) == pix[thi + 1] % 16);
                        assert(nibble_high(buf@[k]) == pix[thi] % 16);
                        assert(nibble_low(buf@[k]) == pix[thi + 1] % 16);
                        lemma_byte_from_nibbles(buf@[k]);
                    }
                    assert(buf@ =~= packed_seq(pix, w, h));
                }
                buf
            },
            Err(_) => {
                proof {
                    assert(false);
                }
                Vec::new()
            },
        }
    }

    /// Finish a text canvas from the font collaborator: turn it to the
    /// panel's mounted orientation and report its dimensions.
    pub fn create_text(&self, canvas: &GrayRaster) -> (r: (GrayRaster, usize, usize))
        requires
            canvas.wf(),
        ensures
            r.0.wf(),
            r.0.width == canvas.width,
            r.0.height == canvas.height,
            r.0.pixels@ == rotated_180(canvas.pixels@),
            r.1 == canvas.width,
            r.2 == canvas.height,
    {
        let image = canvas.rotate_180();
        let width = image.width;
        let height = image.height;
        (image, width, height)
    }
}

/// Where a `width` x `height` block asked for at `(x, y)` actually lands: at
/// `(x, y)` itself, or mirrored about both panel axes when the panel hangs
/// upside down.
pub open spec fn place_coords(x: int, y: int, width: int, height: int, flip: bool) -> (int, int) {
    if flip {
        (OLED_WIDTH - width - x, OLED_HEIGHT - height - y)
    } else {
        (x, y)
    }
}

/// The conditions under which placing a block is free of arithmetic
/// surprises: a mirrored placement must stay on the panel, and the resulting
/// coordinates must satisfy the write path's own conditions.
pub open spec fn draw_coords_ok(x: int, y: int, width: int, height: int, flip: bool) -> bool {
    &&& (flip ==> width + x <= OLED_WIDTH && height + y <= OLED_HEIGHT)
    &&& {
        let (gx, gy) = place_coords(x, y, width, height, flip);
        write_coords_ok(gx, gy, width, height)
    }
}

impl WS1in5 {
    /// Pack a rasterized block of text and stream it at `(x, y)` — mirrored
    /// about both axes when `flip` is set — then report the advanced cursor
    /// `(x + width, y + height)`.
    pub fn draw_text(&mut self, x: usize, y: usize, content: &GrayRaster, flip: bool) -> (r:
        Result<(usize, usize), Error>)
        requires
            content.wf(),
            content.width % 2 == 0,
            draw_coords_ok(x as int, y as int, content.width as int, content.height as int, flip),
        ensures
            ({
                let (gx, gy) = place_coords(
                    x as int,
                    y as int,
                    content.width as int,
                    content.height as int,
                    flip,
                );
                &&& r == Ok::<(usize, usize), Error>(((x + content.width) as usize, (y + content.height) as usize))
                &&& !final(self).cleared
                &&& final(self).ops@ == old(self).ops@ + window_ops(
                    gx as u8,
                    gy as u8,
                    (gx + content.width) as u8,
                    (gy + content.height) as u8,
                ) + data_ops(
                    packed_seq(content.pixels@, content.width as int, content.height as int),
                )
            }),
    {
        let width = content.width;
        let height = content.height;
        // The byte count is a machine word, so `width * height` is too.
        let _n = content.pixels.len();
        proof {
            assert((width / 2) * height <= width * height) by (nonlinear_arith)
                requires
                    0 <= width,
                    0 <= height,
            ;
        }
        let buffer = self.pack_raster(content);
        let ghost packed = buffer@;

        let res = if flip {
            self.show_image(buffer, OLED_WIDTH - width - x, OLED_HEIGHT - height - y, width, height)
        } else {
            self.show_image(buffer, x, y, width, height)
        };
        if res.is_err() {
            proof {
                assert(false);
            }
            return Err(Error::OutOfBounds);
        }

        proof {
            assert(packed.subrange(0, ((width / 2) * height) as int) =~= packed);
        }
        Ok((x + width, y + height))
    }

    /// Draw a rasterized block of text with its position measured from the
    /// panel center: offset `(x, y)` back from dead center, mirrored about
    /// both axes when `flip` is set.  The reported cursor advances from the
    /// caller's offset, not from the computed screen position.
    pub fn draw_centered_text(&mut self, x: usize, y: usize, content: &GrayRaster, flip: bool) -> (r:
        Result<(usize, usize), Error>)
        requires
            content.wf(),
            content.width % 2 == 0,
            content.width / 2 + x <= OLED_WIDTH / 2,
            content.height / 2 + y <= OLED_HEIGHT / 2,
            ({
                let bx = OLED_WIDTH / 2 - content.width / 2 - x;
                let by = OLED_HEIGHT / 2 - content.height / 2 - y;
                draw_coords_ok(bx as int, by as int, content.width as int, content.height as int, flip)
            }),
        ensures
            ({
                let bx = OLED_WIDTH / 2 - content.width / 2 - x;
                let by = OLED_HEIGHT / 2 - content.height / 2 - y;
                let (gx, gy) = place_coords(
                    bx as int,
                    by as int,
                    content.width as int,
                    content.height as int,
                    flip,
                );
                &&& r == Ok::<(usize, usize), Error>(((x + content.width) as usize, (y + content.height) as usize))
                &&& !final(self).cleared
                &&& final(self).ops@ == old(self).ops@ + window_ops(
                    gx as u8,
                    gy as u8,
                    (gx + content.width) as u8,
                    (gy + content.height) as u8,
                ) + data_ops(
                    packed_seq(content.pixels@, content.width as int, content.height as int),
                )
            }),
    {
        let width = content.width;
        let height = content.height;
        let bx = OLED_WIDTH / 2 - width / 2 - x;
        let by = OLED_HEIGHT / 2 - height / 2 - y;

        let r = self.draw_text(bx, by, content, flip);
        if r.is_err() {
            proof {
                assert(false);
            }
            return Err(Error::OutOfBounds);
        }
        Ok((x + width, y + height))
    }
}

/// One paragraph element: a rasterized character cell, or a whitespace cell
/// that is measured for spacing but never drawn.
pub struct Glyph {
    /// The character's rasterized cell, already in panel orientation.
    pub raster: GrayRaster,
    /// True for whitespace: the cursor advances but nothing is streamed.
    pub whitespace: bool,
}

/// Paragraph layout state: the cursor, the transport transcript so far, and
/// the cleared flag.
pub struct ParaState {
    /// Cursor column in pixels.
    pub x: int,
    /// Cursor row in pixels.
    pub y: int,
    /// Every transport operation recorded so far.
    pub ops: Seq<TransportOp>,
    /// Whether the panel still counts as cleared.
    pub cleared: bool,
}

/// The transport operations that drawing one glyph at cursor `(x, y)`
/// records: nothing for whitespace, otherwise the placed window followed by
/// the packed cell.
pub open spec fn para_place_ops(x: int, y: int, g: Glyph, flip: bool) -> Seq<TransportOp> {
    if g.whitespace {
        Seq::empty()
    } else {
        let w = g.raster.width as int;
        let h = g.raster.height as int;
        let (gx, gy) = place_coords(x, y, w, h, flip);
        window_ops(gx as u8, gy as u8, (gx + w) as u8, (gy + h) as u8) + data_ops(
            packed_seq(g.raster.pixels@, w, h),
        )
    }
}

/// One step of paragraph layout: draw the glyph (unless whitespace), advance
/// the cursor by the cell width, and wrap to the next line as soon as one
/// more cell of the same width would overrun the panel.
pub open spec fn para_step(s: ParaState, g: Glyph, flip: bool) -> ParaState {
    let w = g.raster.width as int;
    let h = g.raster.height as int;
    let ops = s.ops + para_place_ops(s.x, s.y, g, flip);
    let cleared = if g.whitespace {
        s.cleared
    } else {
        false
    };
    let x1 = s.x + w;
    if x1 + w > OLED_WIDTH {
        ParaState { x: 0, y: s.y + h, ops: ops, cleared: cleared }
    } else {
        ParaState { x: x1, y: s.y, ops: ops, cleared: cleared }
    }
}

/// The layout state after the first `n` glyphs of a paragraph.
pub open spec fn para_run(glyphs: Seq<Glyph>, n: int, init: ParaState, flip: bool) -> ParaState
    decreases n,
{
    if n <= 0 {
        init
    } else {
        para_step(para_run(glyphs, n - 1, init, flip), glyphs[n - 1], flip)
    }
}

/// Whether one layout step is free of arithmetic surprises: the glyph is a
/// packable raster, the cursor arithmetic stays in machine range, and a drawn
/// glyph satisfies the placement conditions.
pub open spec fn para_step_ok(s: ParaState, g: Glyph, flip: bool) -> bool {
    let w = g.raster.width as int;
    let h = g.raster.height as int;
    &&& g.raster.wf()
    &&& w % 2 == 0
    &&& s.x + w + w <= usize::MAX
    &&& s.y + h <= usize::MAX
    &&& (!g.whitespace ==> draw_coords_ok(s.x, s.y, w, h, flip))
}

/// Whether every step of a paragraph layout is in range, each judged at the
/// cursor the previous steps produce.
pub open spec fn para_ok(glyphs: Seq<Glyph>, init: ParaState, flip: bool) -> bool {
    forall|i: int|
        0 <= i < glyphs.len() ==> para_step_ok(
            para_run(glyphs, i, init, flip),
            #[trigger] glyphs[i],
            flip,
        )
}

/// A paragraph that draws at least one non-whitespace glyph leaves the
/// panel marked as written: whatever follows, the cleared flag is down once
/// any cell has been streamed.
pub proof fn lemma_paragraph_marks_written(glyphs: Seq<Glyph>, n: int, init: ParaState, flip: bool)
    requires
        0 <= n <= glyphs.len(),
        exists|i: int| 0 <= i < n && !(#[trigger] glyphs[i]).whitespace,
    ensures
        !para_run(glyphs, n, init, flip).cleared,
    decreases n,
{
    let i = choose|i: int| 0 <= i < n && !(#[trigger] glyphs[i]).whitespace;
    if i < n - 1 {
        lemma_paragraph_marks_written(glyphs, n - 1, init, flip);
    }
}

/// A paragraph of whitespace alone never touches the panel, so the cleared
/// flag is exactly what it was.
pub proof fn lemma_paragraph_whitespace_keeps_cleared(
    glyphs: Seq<Glyph>,
    n: int,
    init: ParaState,
    flip: bool,
)
    requires
        0 <= n <= glyphs.len(),
        forall|i: int| 0 <= i < n ==> (#[trigger] glyphs[i]).whitespace,
    ensures
        para_run(glyphs, n, init, flip).cleared == init.cleared,
    decreases n,
{
    if n > 0 {
        lemma_paragraph_whitespace_keeps_cleared(glyphs, n - 1, init, flip);
    }
}

impl WS1in5 {
    /// Lay a paragraph of glyph cells out from cursor `(x, y)`, drawing each
    /// non-whitespace cell and wrapping to the start of the next line as soon
    /// as one more cell of the same width would overrun the panel.  Returns
    /// the final cursor.
    ///
    /// The wrap test looks one cell ahead rather than at the cell just
    /// placed, so a line may end one cell earlier than strictly necessary;
    /// callers rely on this exact layout.
    pub fn draw_paragraph_at(
        &mut self,
        x: usize,
        y: usize,
        glyphs: &Vec<Glyph>,
        flip: bool,
    ) -> (r: Result<(usize, usize), Error>)
        requires
            para_ok(
                glyphs@,
                ParaState {
                    x: x as int,
                    y: y as int,
                    ops: old(self).ops@,
                    cleared: old(self).cleared,
                },
                flip,
            ),
        ensures
            ({
                let end = para_run(
                    glyphs@,
                    glyphs@.len() as int,
                    ParaState {
                        x: x as int,
                        y: y as int,
                        ops: old(self).ops@,
                        cleared: old(self).cleared,
                    },
                    flip,
                );
                &&& r == Ok::<(usize, usize), Error>((end.x as usize, end.y as usize))
                &&& final(self).ops@ == end.ops
                &&& final(self).cleared == end.cleared
            }),
    {
        let ghost init = ParaState {
            x: x as int,
            y: y as int,
            ops: self.ops@,
            cleared: self.cleared,
        };
        let mut cx: usize = x;
        let mut cy: usize = y;
        let mut k: usize = 0;
        while k < glyphs.len()
            invariant
                k <= glyphs@.len(),
                para_ok(glyphs@, init, flip),
                ({
                    let s = para_run(glyphs@, k as int, init, flip);
                    &&& s.x == cx as int
                    &&& s.y == cy as int
                    &&& s.ops == self.ops@
                    &&& s.cleared == self.cleared
                }),
            decreases glyphs@.len() - k,
        {
            let ghost s = para_run(glyphs@, k as int, init, flip);
            proof {
                assert(para_step_ok(s, glyphs@[k as int], flip));
            }
            let g = &glyphs[k];
            let w = g.raster.width;
            let h = g.raster.height;

            if !g.whitespace {
                // The byte count is a machine word, so the cell area is too.
                let _n = g.raster.pixels.len();
                proof {
                    assert((w / 2) * h <= w * h) by (nonlinear_arith)
                        requires
                            0 <= w,
                            0 <= h,
                    ;
                }
                let buffer = self.pack_raster(&g.raster);
                let ghost packed = packed_seq(g.raster.pixels@, w as int, h as int);
                let res = if flip {
                    self.show_image(buffer, OLED_WIDTH - w - cx, OLED_HEIGHT - h - cy, w, h)
                } else {
                    self.show_image(buffer, cx, cy, w, h)
                };
                if res.is_err() {
                    proof {
                        assert(false);
                    }
                    return Err(Error::OutOfBounds);
                }
                proof {
                    assert(packed.subrange(0, ((w / 2) * h) as int) =~= packed);
                    assert(self.ops@ =~= s.ops + para_place_ops(s.x, s.y, glyphs@[k as int], flip));
                }
            } else {
                proof {
                    assert(self.ops@ =~= s.ops + para_place_ops(s.x, s.y, glyphs@[k as int], flip));
                }
            }

            cx = cx + w;
            if cx + w > OLED_WIDTH {
                cx = 0;
                cy = cy + h;
            }

            k = k + 1;
        }
        Ok((cx, cy))
    }

    /// Lay a paragraph out from the panel's top-left corner, as
    /// [`WS1in5::draw_paragraph_at`] does from a caller's cursor.
    pub fn draw_paragraph(&mut self, glyphs: &Vec<Glyph>, flip: bool) -> (r: Result<
        (usize, usize),
        Error,
    >)
        requires
            para_ok(
                glyphs@,
                ParaState { x: 0, y: 0, ops: old(self).ops@, cleared: old(self).cleared },
                flip,
            ),
        ensures
            ({
                let end = para_run(
                    glyphs@,
                    glyphs@.len() as int,
                    ParaState { x: 0, y: 0, ops: old(self).ops@, cleared: old(self).cleared },
                    flip,
                );
                &&& r == Ok::<(usize, usize), Error>((end.x as usize, end.y as usize))
                &&& final(self).ops@ == end.ops
                &&& final(self).cleared == end.cleared
            }),
    {
        self.draw_paragraph_at(0, 0, glyphs, flip)
    }
}

} // verus!
