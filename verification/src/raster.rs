//! Putting a line of rasterised text into a frame of pixels.
//!
//! A frame holds its pixels row by row, four bytes each: red, green, blue
//! and alpha. Glyphs come laid out and rasterised, as whole numbers of
//! pixels and samples of coverage scaled to a byte. Text is black: a sample
//! sets the three colours of its pixel to zero and the alpha to its coverage.

use vstd::prelude::*;
use crate::style::Color;

verus! {

/// How well a glyph covers one pixel of its own bitmap.
#[derive(Clone, Copy, Debug, PartialEq, Eq, Structural)]
pub struct Coverage {
    /// The column within the glyph's bitmap.
    pub x: u32,
    /// The row within the glyph's bitmap.
    pub y: u32,
    /// The coverage, from 0 (none) to 255 (full).
    pub alpha: u8,
}

/// A glyph of a line that was laid out and rasterised.
#[derive(Debug, PartialEq, Eq)]
pub struct Glyph {
    /// Where the glyph stands on the line.
    pub x: i32,
    /// How far the glyph moves the pen on.
    pub advance: i32,
    /// The left and the top edge of the glyph's bitmap, relative to the
    /// start of the line. A glyph that covers no pixel has none.
    pub bounds: Option<(i32, i32)>,
    /// The samples of the bitmap, in the order in which they were produced.
    pub samples: Vec<Coverage>,
}

/// Whether a frame of `width` by `height` pixels has the pixel `(x, y)`.
pub open spec fn in_frame(width: u32, height: u32, x: int, y: int) -> bool {
    0 <= x < width && 0 <= y < height
}

/// Where the four bytes of the pixel `(x, y)` start in a frame that is
/// `width` pixels wide.
pub open spec fn pixel_index(width: u32, x: int, y: int) -> int {
    (y * width + x) * 4
}

/// `value` halved, rounded towards zero.
pub open spec fn halved(value: int) -> int {
    if value >= 0 {
        value / 2
    } else {
        -((-value) / 2)
    }
}

/// The width of a line of text: where its last glyph stands plus how far
/// that glyph advances, and zero for a line without glyphs.
pub open spec fn line_width(glyphs: Seq<Glyph>) -> int {
    if glyphs.len() == 0 {
        0
    } else {
        glyphs.last().x + glyphs.last().advance
    }
}

/// Where a line starts that is `width` wide and set in `font_size`, so that
/// it is centred on `center`: half its width to the left of the centre, and
/// half the font size below it.
pub open spec fn line_origin(center: (u32, u32), width: int, font_size: u32) -> (int, int) {
    (center.0 - halved(width), center.1 + font_size / 2)
}

/// `frame` after one sample of coverage `alpha` was put at the pixel
/// `(x, y)`. A sample outside the frame leaves it as it is.
pub open spec fn plotted(
    frame: Seq<u8>,
    width: u32,
    height: u32,
    x: int,
    y: int,
    alpha: u8,
) -> Seq<u8> {
    if in_frame(width, height, x, y) {
        let at = pixel_index(width, x, y);
        frame.update(at, 0u8).update(at + 1, 0u8).update(at + 2, 0u8).update(at + 3, alpha)
    } else {
        frame
    }
}

/// `frame` after `samples` of a bitmap that stands at `(left, top)` were
/// put into it, one after the other.
pub open spec fn samples_drawn(
    frame: Seq<u8>,
    width: u32,
    height: u32,
    samples: Seq<Coverage>,
    left: int,
    top: int,
) -> Seq<u8>
    decreases samples.len(),
{
    if samples.len() == 0 {
        frame
    } else {
        let sample = samples.last();
        plotted(
            samples_drawn(frame, width, height, samples.drop_last(), left, top),
            width,
            height,
            left + sample.x,
            top + sample.y,
            sample.alpha,
        )
    }
}

/// `frame` after `glyph` of a line that starts at `origin` was put into it.
/// A glyph without a bitmap leaves the frame as it is.
pub open spec fn glyph_drawn(
    frame: Seq<u8>,
    width: u32,
    height: u32,
    glyph: Glyph,
    origin: (int, int),
) -> Seq<u8> {
    match glyph.bounds {
        Some((left, top)) => samples_drawn(
            frame,
            width,
            height,
            glyph.samples@,
            origin.0 + left,
            origin.1 + top,
        ),
        None => frame,
    }
}

/// `frame` after `glyphs` of a line that starts at `origin` were put into
/// it, one after the other.
pub open spec fn glyphs_drawn(
    frame: Seq<u8>,
    width: u32,
    height: u32,
    glyphs: Seq<Glyph>,
    origin: (int, int),
) -> Seq<u8>
    decreases glyphs.len(),
{
    if glyphs.len() == 0 {
        frame
    } else {
        glyph_drawn(
            glyphs_drawn(frame, width, height, glyphs.drop_last(), origin),
            width,
            height,
            glyphs.last(),
            origin,
        )
    }
}

/// `frame` with every whole pixel set to `color`. Bytes after the last
/// whole pixel stay.
pub open spec fn filled(frame: Seq<u8>, color: Color) -> Seq<u8> {
    Seq::new(
        frame.len(),
        |i: int|
            if i >= (frame.len() / 4) * 4 {
                frame[i]
            } else if i % 4 == 0 {
                color.r
            } else if i % 4 == 1 {
                color.g
            } else if i % 4 == 2 {
                color.b
            } else {
                color.a
            },
    )
}

/// The width of the line that `glyphs` make up.
pub fn measure_line(glyphs: &Vec<Glyph>) -> (width: i64)
    ensures
        width == line_width(glyphs@),
{
    let n = glyphs.len();
    if n == 0 {
        0
    } else {
        glyphs[n - 1].x as i64 + glyphs[n - 1].advance as i64
    }
}

/// Where a line starts that is `width` wide and set in `font_size`, so that
/// it is centred on `center`.
pub fn place_line(center: (u32, u32), width: i64, font_size: u32) -> (origin: (i64, i64))
    ensures
        (origin.0 as int, origin.1 as int) == line_origin(center, width as int, font_size),
{
    let wide: i128 = width as i128;
    let half: i128 = if wide >= 0 {
        wide / 2
    } else {
        -((-wide) / 2)
    };
    ((center.0 as i128 - half) as i64, center.1 as i64 + (font_size / 2) as i64)
}

/// Sets every whole pixel of `frame` to `color`.
pub fn fill(frame: &mut [u8], color: Color)
    ensures
        final(frame)@ == filled(old(frame)@, color),
{
    let pixels = frame.len() / 4;
    let mut p: usize = 0;
    while p < pixels
        invariant
            p <= pixels,
            pixels == old(frame)@.len() / 4,
            frame@.len() == old(frame)@.len(),
            frame@.len() <= usize::MAX,
            forall|i: int| 0 <= i < 4 * p ==> frame@[i] == #[trigger] filled(old(frame)@, color)[i],
            forall|i: int| 4 * p <= i < frame@.len() ==> frame@[i] == #[trigger] old(frame)@[i],
        decreases pixels - p,
    {
        let at = 4 * p;
        frame[at] = color.r;
        frame[at + 1] = color.g;
        frame[at + 2] = color.b;
        frame[at + 3] = color.a;
        p += 1;
    }
}

/// Puts one sample of coverage `alpha` at the pixel `(x, y)` of `frame`,
/// if the frame has that pixel.
pub fn plot(frame: &mut [u8], width: u32, height: u32, x: i64, y: i64, alpha: u8)
    requires
        old(frame)@.len() >= width * height * 4,
    ensures
        final(frame)@ == plotted(old(frame)@, width, height, x as int, y as int, alpha),
        final(frame)@.len() == old(frame)@.len(),
{
    if x >= 0 && x < width as i64 && y >= 0 && y < height as i64 {
        assert(0 <= y * width && y * width + x < width * height) by (nonlinear_arith)
            requires
                0 <= x < width,
                0 <= y < height,
        ;
        assert(frame@.len() == frame.len());
        let at = (y as usize * width as usize + x as usize) * 4;
        frame[at] = 0;
        frame[at + 1] = 0;
        frame[at + 2] = 0;
        frame[at + 3] = alpha;
    }
}

/// Puts `glyph` into `frame`, for a line that starts at `origin`.
pub fn draw_glyph(frame: &mut [u8], width: u32, height: u32, glyph: &Glyph, origin: (i64, i64))
    requires
        old(frame)@.len() >= width * height * 4,
    ensures
        final(frame)@ == glyph_drawn(
            old(frame)@,
            width,
            height,
            *glyph,
            (origin.0 as int, origin.1 as int),
        ),
        final(frame)@.len() == old(frame)@.len(),
{
    if let Some((left, top)) = glyph.bounds {
        let left: i128 = origin.0 as i128 + left as i128;
        let top: i128 = origin.1 as i128 + top as i128;
        let n = glyph.samples.len();
        let mut i: usize = 0;
        while i < n
            invariant
                i <= n,
                n == glyph.samples@.len(),
                frame@.len() == old(frame)@.len(),
                frame@.len() >= width * height * 4,
                -0x1_0000_0000_0000_0000 <= left <= 0x1_0000_0000_0000_0000,
                -0x1_0000_0000_0000_0000 <= top <= 0x1_0000_0000_0000_0000,
                frame@ == samples_drawn(
                    old(frame)@,
                    width,
                    height,
                    glyph.samples@.take(i as int),
                    left as int,
                    top as int,
                ),
            decreases n - i,
        {
            let sample = glyph.samples[i];
            assert(glyph.samples@.take(i + 1).drop_last() =~= glyph.samples@.take(i as int));
            let x: i128 = left + sample.x as i128;
            let y: i128 = top + sample.y as i128;
            if 0 <= x && x < width as i128 && 0 <= y && y < height as i128 {
                plot(frame, width, height, x as i64, y as i64, sample.alpha);
            }
            i += 1;
        }
        assert(glyph.samples@.take(n as int) =~= glyph.samples@);
    }
}

/// Draws the line of text that `glyphs` make up, set in `font_size`, so
/// that it is centred on `center`.
pub fn draw_text(
    frame: &mut [u8],
    width: u32,
    height: u32,
    glyphs: &Vec<Glyph>,
    font_size: u32,
    center: (u32, u32),
)
    requires
        old(frame)@.len() >= width * height * 4,
    ensures
        final(frame)@ == glyphs_drawn(
            old(frame)@,
            width,
            height,
            glyphs@,
            line_origin(center, line_width(glyphs@), font_size),
        ),
        final(frame)@.len() == old(frame)@.len(),
{
    let origin = place_line(center, measure_line(glyphs), font_size);
    let n = glyphs.len();
    let mut i: usize = 0;
    while i < n
        invariant
            i <= n,
            n == glyphs@.len(),
            frame@.len() == old(frame)@.len(),
            frame@.len() >= width * height * 4,
            (origin.0 as int, origin.1 as int) == line_origin(
                center,
                line_width(glyphs@),
                font_size,
            ),
            frame@ == glyphs_drawn(
                old(frame)@,
                width,
                height,
                glyphs@.take(i as int),
                (origin.0 as int, origin.1 as int),
            ),
        decreases n - i,
    {
        assert(glyphs@.take(i + 1).drop_last() =~= glyphs@.take(i as int));
        draw_glyph(frame, width, height, &glyphs[i], origin);
        i += 1;
    }
    assert(glyphs@.take(n as int) =~= glyphs@);
}

} // verus!
