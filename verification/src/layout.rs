//! Text measurement.
//!
//! Glyph geometry comes from the outside font collaborator as plain pixel
//! counts: a reference-glyph width and a line height, both derived from the
//! font's metrics at the chosen scale.  Layout is deliberately monospaced —
//! every character occupies the same cell, sized from one reference glyph —
//! so measuring a string is pure arithmetic, verified here.

use vstd::prelude::*;
use vstd::string::StrSliceExecFns;

use crate::screen::WS1in5;

verus! {

/// Pixel geometry of a font at a fixed scale, as the font collaborator
/// reports it.
///
/// `glyph_width` is the horizontal extent of the reference glyph (the ASCII
/// underscore, which the font must be able to rasterize); `line_height` is
/// the rounded-up distance from ascent to descent.  Both are pixel counts and
/// never negative.
pub struct FontMetrics {
    /// Width of the reference glyph's bounding box in pixels.
    pub glyph_width: i32,
    /// Single-line height in pixels.
    pub line_height: i32,
}

impl FontMetrics {
    /// The collaborator reports nonnegative pixel counts that leave room for
    /// the rounding step.
    pub open spec fn wf(&self) -> bool {
        0 <= self.glyph_width < i32::MAX && 0 <= self.line_height < i32::MAX
    }
}

/// The next even number: `n` itself when even, `n + 1` when odd.  Packing
/// stores two pixels per byte, so raster dimensions are rounded up to this.
pub open spec fn even_up(n: int) -> int {
    if n % 2 != 0 {
        n + 1
    } else {
        n
    }
}

impl WS1in5 {
    /// Round each dimension up to an even pixel count, so that any raster of
    /// that size packs into whole bytes.
    pub fn size_to_pow_2(size: (i32, i32)) -> (r: (i32, i32))
        requires
            size.0 < i32::MAX,
            size.1 < i32::MAX,
        ensures
            r.0 == even_up(size.0 as int),
            r.1 == even_up(size.1 as int),
    {
        let mut size = size;
        if size.0 % 2 != 0 {
            size.0 = size.0 + 1;
        }
        if size.1 % 2 != 0 {
            size.1 = size.1 + 1;
        }
        size
    }

    /// Measure `text` in the monospaced cell grid: the even-rounded cell
    /// width times the character count, the even-rounded line height, and
    /// the cell width itself.  Newlines get no special treatment — every
    /// character, whitespace included, occupies one cell.
    pub fn get_text_size_full(&self, text: &str, metrics: &FontMetrics) -> (r: (
        usize,
        usize,
        usize,
    ))
        requires
            metrics.wf(),
            even_up(metrics.glyph_width as int) * text@.len() <= usize::MAX,
        ensures
            r.0 == even_up(metrics.glyph_width as int) * text@.len(),
            r.1 == even_up(metrics.line_height as int),
            r.2 == even_up(metrics.glyph_width as int),
    {
        let (w, h) = Self::size_to_pow_2((metrics.glyph_width, metrics.line_height));
        let count = text.unicode_len();
        ((w as usize) * count, h as usize, w as usize)
    }

    /// Measure `text` as [`WS1in5::get_text_size_full`] does, reporting only
    /// the total size.
    pub fn get_text_size(&self, text: &str, metrics: &FontMetrics) -> (r: (usize, usize))
        requires
            metrics.wf(),
            even_up(metrics.glyph_width as int) * text@.len() <= usize::MAX,
        ensures
            r.0 == even_up(metrics.glyph_width as int) * text@.len(),
            r.1 == even_up(metrics.line_height as int),
    {
        let (w, h, _) = self.get_text_size_full(text, metrics);
        (w, h)
    }
}

} // verus!
