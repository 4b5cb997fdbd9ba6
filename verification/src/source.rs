//! The source image: an immutable pixel grid, loaded from encoded bytes and
//! resized to the configured output dimensions, plus the blank canvas
//! raster that a run composites into.

use vstd::prelude::*;
use crate::codec;
use crate::codec::{channel_count, decoded_dims, png_arg_ok, png_of, MAX_PIXELS};
use crate::config::ResizeTarget;
use crate::sampler::CanvasDimensions;
use crate::scale;
use crate::scale::fit_size;

verus! {

/// The color of one pixel: a single lightness, or a full R/G/B triple.
#[derive(Debug, Clone, Copy, PartialEq, Eq, Structural)]
pub enum PixelColor {
    Gray(u8),
    Rgb(u8, u8, u8),
}

/// Which sampling representation the source image carries; fixed at load
/// time and never changed thereafter.
#[derive(Debug, Clone, Copy, PartialEq, Eq, Structural)]
pub enum ColorMode {
    Grayscale,
    Color,
}

/// The sample bytes of a pixel grid: one lightness byte per pixel, or three
/// interleaved color bytes per pixel, row-major either way.
pub enum PixelData {
    Gray(Vec<u8>),
    Rgb(Vec<u8>),
}

/// An immutable pixel grid with its dimensions; read-only after load.
pub struct SourceImage {
    pub width: u32,
    pub height: u32,
    pub pixels: PixelData,
}

/// Failures while turning encoded bytes into a source image.
#[derive(Debug, Clone, Copy, PartialEq, Eq, Structural)]
pub enum LoadError {
    /// The bytes are not a decodable image, or decode to an empty one.
    Undecodable,
    /// The requested output size exceeds the pixel cap.
    TooLarge,
}

/// A coordinate lookup outside the pixel grid.
#[derive(Debug, Clone, Copy, PartialEq, Eq, Structural)]
pub enum SampleError {
    OutOfBounds,
}

impl SourceImage {
    /// Whether the grid carries lightness samples rather than color ones.
    pub open spec fn is_gray(self) -> bool {
        self.pixels matches PixelData::Gray(_)
    }

    /// The mode the grid was loaded under.
    pub open spec fn mode(self) -> ColorMode {
        if self.is_gray() {
            ColorMode::Grayscale
        } else {
            ColorMode::Color
        }
    }

    /// The raw sample bytes, whichever representation is carried.
    pub open spec fn raw(self) -> Seq<u8> {
        match self.pixels {
            PixelData::Gray(d) => d@,
            PixelData::Rgb(d) => d@,
        }
    }

    /// Well-formed: nonempty, within the pixel cap, and with exactly one
    /// sample byte per channel per pixel.
    pub open spec fn wf(self) -> bool {
        &&& self.width >= 1
        &&& self.height >= 1
        &&& (self.width as int) * (self.height as int) <= MAX_PIXELS as int
        &&& self.raw().len() == channel_count(self.is_gray()) * (self.width as int) * (
        self.height as int)
    }

    /// The color of the pixel at `(x, y)`, row-major with row 0 at the top.
    pub open spec fn pixel_at(self, x: int, y: int) -> PixelColor
        recommends
            0 <= x < self.width,
            0 <= y < self.height,
    {
        let idx = y * (self.width as int) + x;
        match self.pixels {
            PixelData::Gray(d) => PixelColor::Gray(d@[idx]),
            PixelData::Rgb(d) => PixelColor::Rgb(d@[3 * idx], d@[3 * idx + 1], d@[3 * idx + 2]),
        }
    }

    /// The canvas is the same size as the (resized) source grid.
    pub fn canvas_dimensions(&self) -> (d: CanvasDimensions)
        ensures
            d.width == self.width,
            d.height == self.height,
    {
        CanvasDimensions { width: self.width, height: self.height }
    }

    /// The color at coordinates already known to lie on the grid.
    pub fn pixel_unchecked(&self, x: u32, y: u32) -> (c: PixelColor)
        requires
            self.wf(),
            x < self.width,
            y < self.height,
        ensures
            c == self.pixel_at(x as int, y as int),
    {
        proof {
            assert((y as int) * (self.width as int) + (x as int) < (self.width as int) * (
            self.height as int)) by (nonlinear_arith)
                requires
                    x < self.width,
                    y < self.height,
            ;
            assert(3 * ((y as int) * (self.width as int) + (x as int)) + 2 < 3 * (
            self.width as int) * (self.height as int)) by (nonlinear_arith)
                requires
                    x < self.width,
                    y < self.height,
            ;
        }
        let idx: usize = (y as usize) * (self.width as usize) + (x as usize);
        match &self.pixels {
            PixelData::Gray(d) => PixelColor::Gray(d[idx]),
            PixelData::Rgb(d) => {
                let base: usize = 3 * idx;
                PixelColor::Rgb(d[base], d[base + 1], d[base + 2])
            },
        }
    }

    /// The color at `(x, y)`, or `OutOfBounds` exactly when the coordinates
    /// fall outside the grid.
    pub fn color_at(&self, x: u32, y: u32) -> (r: Result<PixelColor, SampleError>)
        requires
            self.wf(),
        ensures
            x < self.width && y < self.height ==> r == Ok::<PixelColor, SampleError>(
                self.pixel_at(x as int, y as int),
            ),
            !(x < self.width && y < self.height) ==> r == Err::<PixelColor, SampleError>(
                SampleError::OutOfBounds,
            ),
    {
        if x < self.width && y < self.height {
            Ok(self.pixel_unchecked(x, y))
        } else {
            Err(SampleError::OutOfBounds)
        }
    }
}

/// Decodes `bytes`, resizes the image to `target` preserving the aspect
/// ratio, and converts it to the sampling representation of `mode`.
///
/// Success and each error are pinned to the decode outcome of the bytes
/// (`decoded_dims`): `Undecodable` exactly when the bytes do not decode, or
/// decode to an empty image; `TooLarge` exactly when the fitted size
/// exceeds the pixel cap; otherwise the result has exactly the `fit_size`
/// dimensions of the decoded image under `target`. In particular,
/// re-loading a raster that this library itself encoded gives back exactly
/// that raster's `fit_size` dimensions.
pub fn load_from_bytes(bytes: &Vec<u8>, mode: ColorMode, target: ResizeTarget) -> (r: Result<
    SourceImage,
    LoadError,
>)
    ensures
        match r {
            Ok(s) => {
                &&& s.wf()
                &&& s.mode() == mode
                &&& decoded_dims(bytes@) matches Some(wh) && wh.0 >= 1 && wh.1 >= 1 && (
                s.width as int, s.height as int) == fit_size(wh.0 as int, wh.1 as int, target)
            },
            Err(LoadError::Undecodable) => decoded_dims(bytes@) is None || (decoded_dims(bytes@)
                matches Some(wh) && (wh.0 == 0 || wh.1 == 0)),
            Err(LoadError::TooLarge) => decoded_dims(bytes@) matches Some(wh) && wh.0 >= 1 && wh.1
                >= 1 && fit_size(wh.0 as int, wh.1 as int, target).0 * fit_size(
                wh.0 as int,
                wh.1 as int,
                target,
            ).1 > MAX_PIXELS as int,
        },
        forall|w: u32, h: u32, g: bool, d: Seq<u8>|
            png_arg_ok(w, h, g, d) && bytes@ == #[trigger] png_of(w, h, g, d) ==> decoded_dims(
                bytes@,
            ) == Some((w, h)) && match r {
                Ok(s) => (s.width as int, s.height as int) == fit_size(w as int, h as int, target),
                Err(e) => e == LoadError::TooLarge,
            },
{
    let img = match codec::decode_image(bytes.as_slice()) {
        Ok(img) => img,
        Err(_) => { return Err(LoadError::Undecodable) },
    };
    let (w0, h0) = codec::image_dims(&img);
    if w0 == 0 || h0 == 0 {
        return Err(LoadError::Undecodable);
    }
    let (nw, nh) = scale::fit_dimensions(w0, h0, target);
    proof {
        vstd::arithmetic::mul::lemma_mul_upper_bound(
            nw as int,
            u32::MAX as int,
            nh as int,
            u32::MAX as int,
        );
    }
    if (nw as u64) * (nh as u64) > MAX_PIXELS {
        return Err(LoadError::TooLarge);
    }
    let resized = codec::resize_to(&img, nw, nh);
    let pixels = match mode {
        ColorMode::Grayscale => PixelData::Gray(codec::to_gray_raw(&resized)),
        ColorMode::Color => PixelData::Rgb(codec::to_rgb_raw(&resized)),
    };
    Ok(SourceImage { width: nw, height: nh, pixels })
}

/// Round trip: a well-formed raster satisfies the re-load premise of
/// `load_from_bytes` (`png_arg_ok`), and refitting to the raster's own
/// height reproduces its dimensions. Together with the contracts of
/// `export_png` and `load_from_bytes` this says that re-loading an exported
/// canvas, under the canvas's own height as the target, yields a raster of
/// identical dimensions.
pub proof fn lemma_export_reload_dims(s: SourceImage)
    requires
        s.wf(),
    ensures
        png_arg_ok(s.width, s.height, s.is_gray(), s.raw()),
        fit_size(s.width as int, s.height as int, ResizeTarget::Height(s.height)) == (
            s.width as int,
            s.height as int,
        ),
{
    scale::lemma_refit_identity(s.width, s.height);
}

/// A blank canvas raster: every sample at full white, the background of a
/// canvas onto which nothing has been drawn yet.
pub fn blank_raster(dims: &CanvasDimensions, mode: ColorMode) -> (s: SourceImage)
    requires
        dims.wf(),
        (dims.width as int) * (dims.height as int) <= MAX_PIXELS as int,
    ensures
        s.wf(),
        s.width == dims.width,
        s.height == dims.height,
        s.mode() == mode,
        forall|i: int| 0 <= i < s.raw().len() ==> s.raw()[i] == 255,
{
    let count: u64 = (dims.width as u64) * (dims.height as u64);
    let total: u64 = match mode {
        ColorMode::Grayscale => count,
        ColorMode::Color => 3 * count,
    };
    let mut d: Vec<u8> = Vec::new();
    let mut i: u64 = 0;
    while i < total
        invariant
            i <= total,
            d@.len() == i,
            forall|j: int| 0 <= j < d@.len() ==> d@[j] == 255,
        decreases total - i,
    {
        d.push(255);
        i += 1;
    }
    proof {
        assert(3 * ((dims.width as int) * (dims.height as int)) == 3 * (dims.width as int) * (
        dims.height as int)) by (nonlinear_arith);
    }
    let pixels = match mode {
        ColorMode::Grayscale => PixelData::Gray(d),
        ColorMode::Color => PixelData::Rgb(d),
    };
    SourceImage { width: dims.width, height: dims.height, pixels }
}

} // verus!
