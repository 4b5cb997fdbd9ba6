//! The stand-in rendering primitive: each glyph is stamped onto the canvas
//! raster as a solid block of its size and color, centered on the pixel it
//! was sampled from. A windowing surface with a font rasterizer (the
//! excluded display collaborator) would draw the character's outline
//! instead; the block keeps the glyph's position, size and color exactly.

use vstd::prelude::*;
use crate::compositor::Glyph;
use crate::sampler::CanvasDimensions;
use crate::source::{PixelColor, PixelData, SourceImage};

verus! {

/// Whether the glyph's block covers the grid cell `(x, y)`: the block is a
/// square of half-width `size / 2`, centered on the glyph's image-space
/// position.
pub open spec fn covers(img: SourceImage, g: Glyph, x: int, y: int) -> bool {
    let cx = g.position.x + img.width as int / 2;
    let cy = g.position.y + img.height as int / 2;
    let half = g.size as int / 2;
    &&& cx - half <= x <= cx + half
    &&& cy - half <= y <= cy + half
}

/// The raster after one glyph is stamped: the glyph's color on every cell
/// its block covers, every other cell untouched.
pub open spec fn stamped_pixel(img: SourceImage, g: Glyph, x: int, y: int) -> PixelColor {
    if covers(img, g, x, y) {
        g.color
    } else {
        img.pixel_at(x, y)
    }
}

/// Distinct grid cells occupy distinct row-major indices.
proof fn lemma_row_major_injective(w: int, x1: int, y1: int, x2: int, y2: int)
    requires
        0 <= x1 < w,
        0 <= x2 < w,
        y1 * w + x1 == y2 * w + x2,
    ensures
        x1 == x2 && y1 == y2,
{
    assert(x1 == x2 && y1 == y2) by (nonlinear_arith)
        requires
            0 <= x1 < w,
            0 <= x2 < w,
            y1 * w + x1 == y2 * w + x2,
    ;
}

/// Writes one pixel of the raster; every other pixel keeps its value.
fn set_pixel(img: &mut SourceImage, x: u32, y: u32, color: PixelColor)
    requires
        old(img).wf(),
        x < old(img).width,
        y < old(img).height,
        (color matches PixelColor::Gray(_)) == old(img).is_gray(),
    ensures
        final(img).wf(),
        final(img).width == old(img).width,
        final(img).height == old(img).height,
        final(img).is_gray() == old(img).is_gray(),
        final(img).pixel_at(x as int, y as int) == color,
        forall|i: int, j: int|
            0 <= i < old(img).width && 0 <= j < old(img).height && !(i == x && j == y)
                ==> final(img).pixel_at(i, j) == old(img).pixel_at(i, j),
{
    proof {
        assert((y as int) * (img.width as int) + (x as int) < (img.width as int) * (
        img.height as int)) by (nonlinear_arith)
            requires
                x < img.width,
                y < img.height,
        ;
        assert(3 * ((y as int) * (img.width as int) + (x as int)) + 2 < 3 * (img.width as int) * (
        img.height as int)) by (nonlinear_arith)
            requires
                x < img.width,
                y < img.height,
        ;
    }
    let w = img.width;
    let h = img.height;
    let idx: usize = (y as usize) * (w as usize) + (x as usize);
    match (&mut img.pixels, color) {
        (PixelData::Gray(d), PixelColor::Gray(l)) => {
            d[idx] = l;
        },
        (PixelData::Rgb(d), PixelColor::Rgb(r0, g0, b0)) => {
            let base: usize = 3 * idx;
            d[base] = r0;
            d[base + 1] = g0;
            d[base + 2] = b0;
        },
        _ => {
            proof {
                assert(false);
            }
        },
    }
    proof {
        assert forall|i: int, j: int|
            0 <= i < old(img).width && 0 <= j < old(img).height && !(i == x && j == y) implies img.pixel_at(
            i,
            j,
        ) == old(img).pixel_at(i, j) by {
            if j * (w as int) + i == (y as int) * (w as int) + (x as int) {
                lemma_row_major_injective(w as int, i, j, x as int, y as int);
            }
            assert(0 <= j * (w as int) + i < (w as int) * (h as int)) by (nonlinear_arith)
                requires
                    0 <= i < w,
                    0 <= j < h,
            ;
            assert(3 * ((w as int) * (h as int)) == 3 * (w as int) * (h as int))
                by (nonlinear_arith);
        }
    }
}

/// Stamps one glyph onto the canvas raster. Exactly the cells the glyph's
/// block covers take the glyph's color; every other cell is untouched; the
/// raster's dimensions and mode never change.
pub fn stamp_glyph(img: &mut SourceImage, g: &Glyph)
    requires
        old(img).wf(),
        (g.color matches PixelColor::Gray(_)) == old(img).is_gray(),
        (CanvasDimensions { width: old(img).width, height: old(img).height }).contains_point(
            g.position,
        ),
    ensures
        final(img).wf(),
        final(img).width == old(img).width,
        final(img).height == old(img).height,
        final(img).is_gray() == old(img).is_gray(),
        forall|i: int, j: int|
            0 <= i < old(img).width && 0 <= j < old(img).height ==> final(img).pixel_at(i, j)
                == stamped_pixel(*old(img), *g, i, j),
{
    let ghost orig = *img;
    let w = img.width;
    let h = img.height;
    let cx: i64 = g.position.x + (w / 2) as i64;
    let cy: i64 = g.position.y + (h / 2) as i64;
    let half: i64 = (g.size / 2) as i64;
    let x0: i64 = if cx - half < 0 {
        0
    } else {
        cx - half
    };
    let x1: i64 = if cx + half > (w - 1) as i64 {
        (w - 1) as i64
    } else {
        cx + half
    };
    let y0: i64 = if cy - half < 0 {
        0
    } else {
        cy - half
    };
    let y1: i64 = if cy + half > (h - 1) as i64 {
        (h - 1) as i64
    } else {
        cy + half
    };
    let mut j: i64 = y0;
    while j <= y1
        invariant
            img.wf(),
            img.width == orig.width,
            img.height == orig.height,
            img.is_gray() == orig.is_gray(),
            orig.wf(),
            w == orig.width,
            h == orig.height,
            (g.color matches PixelColor::Gray(_)) == orig.is_gray(),
            cx == g.position.x + w as int / 2,
            cy == g.position.y + h as int / 2,
            half == g.size as int / 2,
            0 <= cx < w,
            0 <= cy < h,
            0 <= half,
            x0 == (if cx - half < 0 { 0int } else { cx - half }),
            x1 == (if cx + half > w - 1 { (w - 1) as int } else { cx + half }),
            y0 == (if cy - half < 0 { 0int } else { cy - half }),
            y1 == (if cy + half > h - 1 { (h - 1) as int } else { cy + half }),
            y0 <= j <= y1 + 1,
            forall|a: int, b: int|
                0 <= a < w && 0 <= b < h ==> img.pixel_at(a, b) == (if covers(orig, *g, a, b) && b
                    < j {
                    g.color
                } else {
                    orig.pixel_at(a, b)
                }),
        decreases y1 + 1 - j,
    {
        let mut a: i64 = x0;
        while a <= x1
            invariant
                img.wf(),
                img.width == orig.width,
                img.height == orig.height,
                img.is_gray() == orig.is_gray(),
                orig.wf(),
                w == orig.width,
                h == orig.height,
                (g.color matches PixelColor::Gray(_)) == orig.is_gray(),
                cx == g.position.x + w as int / 2,
                cy == g.position.y + h as int / 2,
                half == g.size as int / 2,
                0 <= cx < w,
                0 <= cy < h,
                0 <= half,
                x0 == (if cx - half < 0 { 0int } else { cx - half }),
                x1 == (if cx + half > w - 1 { (w - 1) as int } else { cx + half }),
                0 <= j,
                y0 <= j <= y1,
                y1 <= h - 1,
                cy - half <= j <= cy + half,
                x0 <= a <= x1 + 1,
                forall|a2: int, b2: int|
                    0 <= a2 < w && 0 <= b2 < h ==> img.pixel_at(a2, b2) == (if covers(
                        orig,
                        *g,
                        a2,
                        b2,
                    ) && (b2 < j || (b2 == j && a2 < a)) {
                        g.color
                    } else {
                        orig.pixel_at(a2, b2)
                    }),
            decreases x1 + 1 - a,
        {
            set_pixel(img, a as u32, j as u32, g.color);
            a = a + 1;
        }
        j = j + 1;
    }
}

} // verus!
