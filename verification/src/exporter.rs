//! Serializing the finished canvas raster: the output format is inferred
//! from the output path's extension (case-insensitively), an unsupported
//! extension is an error, and a well-formed raster always encodes — except
//! to JPEG, whose format admits no dimension above 65535.

use vstd::prelude::*;
use vstd::pervasive::unreached;
use crate::codec;
use crate::codec::{jpeg_of, png_of};
use crate::source::{PixelData, SourceImage};

verus! {

/// An output encoding this library can produce.
#[derive(Debug, Clone, Copy, PartialEq, Eq, Structural)]
pub enum OutputFormat {
    Png,
    Jpeg,
}

/// Failures while serializing the canvas raster.
#[derive(Debug, Clone, Copy, PartialEq, Eq, Structural)]
pub enum ExportError {
    /// The output path's extension names no supported format.
    UnsupportedFormat,
    /// The raster's dimensions do not fit the chosen format.
    TooLargeForFormat,
}

/// The ASCII-lowercase code of a character; extensions match their format
/// names case-insensitively.
pub open spec fn lower_code(c: char) -> int {
    if 65 <= c as int && c as int <= 90 {
        c as int + 32
    } else {
        c as int
    }
}

/// Whether `s` spells the (lowercase) word `w`, ignoring ASCII case.
pub open spec fn ext_is(s: Seq<char>, w: Seq<char>) -> bool {
    s.len() == w.len() && forall|i: int|
        0 <= i < s.len() ==> lower_code(#[trigger] s[i]) == w[i] as int
}

/// The format named by a path extension: `png`, or `jpg`/`jpeg`, in any
/// ASCII case; anything else is unsupported.
pub open spec fn format_of_extension(s: Seq<char>) -> Result<OutputFormat, ExportError> {
    if ext_is(s, seq!['p', 'n', 'g']) {
        Ok(OutputFormat::Png)
    } else if ext_is(s, seq!['j', 'p', 'g']) || ext_is(s, seq!['j', 'p', 'e', 'g']) {
        Ok(OutputFormat::Jpeg)
    } else {
        Err(ExportError::UnsupportedFormat)
    }
}

/// Case-insensitive comparison of one character against a lowercase one.
fn eq_ci(c: char, lower: char) -> (b: bool)
    ensures
        b == (lower_code(c) == lower as int),
{
    let cc = c as u32;
    if 65 <= cc && cc <= 90 {
        cc + 32 == lower as u32
    } else {
        cc == lower as u32
    }
}

/// Whether the extension spells the three-letter lowercase word `abc`.
fn matches3(ext: &Vec<char>, a: char, b: char, c: char) -> (r: bool)
    ensures
        r == ext_is(ext@, seq![a, b, c]),
{
    if ext.len() != 3 {
        return false;
    }
    let e0 = eq_ci(ext[0], a);
    let e1 = eq_ci(ext[1], b);
    let e2 = eq_ci(ext[2], c);
    proof {
        let w = seq![a, b, c];
        if e0 && e1 && e2 {
            assert forall|i: int| 0 <= i < ext@.len() implies lower_code(ext@[i]) == w[i] as int by {
                if i == 0 {
                } else if i == 1 {
                } else {
                    assert(i == 2);
                }
            }
        } else {
            if !e0 {
                assert(lower_code(ext@[0]) != w[0] as int);
            } else if !e1 {
                assert(lower_code(ext@[1]) != w[1] as int);
            } else {
                assert(lower_code(ext@[2]) != w[2] as int);
            }
        }
    }
    e0 && e1 && e2
}

/// Whether the extension spells the four-letter lowercase word `abcd`.
fn matches4(ext: &Vec<char>, a: char, b: char, c: char, d: char) -> (r: bool)
    ensures
        r == ext_is(ext@, seq![a, b, c, d]),
{
    if ext.len() != 4 {
        return false;
    }
    let e0 = eq_ci(ext[0], a);
    let e1 = eq_ci(ext[1], b);
    let e2 = eq_ci(ext[2], c);
    let e3 = eq_ci(ext[3], d);
    proof {
        let w = seq![a, b, c, d];
        if e0 && e1 && e2 && e3 {
            assert forall|i: int| 0 <= i < ext@.len() implies lower_code(ext@[i]) == w[i] as int by {
                if i == 0 {
                } else if i == 1 {
                } else if i == 2 {
                } else {
                    assert(i == 3);
                }
            }
        } else {
            if !e0 {
                assert(lower_code(ext@[0]) != w[0] as int);
            } else if !e1 {
                assert(lower_code(ext@[1]) != w[1] as int);
            } else if !e2 {
                assert(lower_code(ext@[2]) != w[2] as int);
            } else {
                assert(lower_code(ext@[3]) != w[3] as int);
            }
        }
    }
    e0 && e1 && e2 && e3
}

/// The output format for a path extension, or `UnsupportedFormat` exactly
/// when the extension names none this library can encode.
pub fn format_for_extension(ext: &Vec<char>) -> (r: Result<OutputFormat, ExportError>)
    ensures
        r == format_of_extension(ext@),
{
    if matches3(ext, 'p', 'n', 'g') {
        Ok(OutputFormat::Png)
    } else if matches3(ext, 'j', 'p', 'g') {
        Ok(OutputFormat::Jpeg)
    } else if matches4(ext, 'j', 'p', 'e', 'g') {
        Ok(OutputFormat::Jpeg)
    } else {
        Err(ExportError::UnsupportedFormat)
    }
}

/// Encodes a raster to PNG bytes, exactly as composited: same dimensions,
/// same samples, no color-space conversion. A well-formed raster always
/// encodes.
pub fn export_png(img: &SourceImage) -> (r: Vec<u8>)
    requires
        img.wf(),
    ensures
        r@ == png_of(img.width, img.height, img.is_gray(), img.raw()),
{
    let gray: bool = match &img.pixels {
        PixelData::Gray(_) => true,
        PixelData::Rgb(_) => false,
    };
    let data: &Vec<u8> = match &img.pixels {
        PixelData::Gray(d) => d,
        PixelData::Rgb(d) => d,
    };
    match codec::encode_png_bytes(img.width, img.height, gray, data.as_slice()) {
        Ok(b) => b,
        Err(_) => unreached(),
    }
}

/// Encodes a raster to JPEG bytes, exactly as composited; succeeds if and
/// only if both dimensions fit the format's limit of 65535.
pub fn export_jpeg(img: &SourceImage) -> (r: Result<Vec<u8>, ExportError>)
    requires
        img.wf(),
    ensures
        (r matches Ok(_)) <==> (img.width <= 65535 && img.height <= 65535),
        r matches Ok(b) ==> b@ == jpeg_of(img.width, img.height, img.is_gray(), img.raw()),
        r matches Err(e) ==> e == ExportError::TooLargeForFormat,
{
    let gray: bool = match &img.pixels {
        PixelData::Gray(_) => true,
        PixelData::Rgb(_) => false,
    };
    let data: &Vec<u8> = match &img.pixels {
        PixelData::Gray(d) => d,
        PixelData::Rgb(d) => d,
    };
    match codec::encode_jpeg_bytes(img.width, img.height, gray, data.as_slice()) {
        Ok(b) => Ok(b),
        Err(_) => Err(ExportError::TooLargeForFormat),
    }
}

/// Encodes a raster in the chosen format. PNG always succeeds on a
/// well-formed raster; JPEG succeeds exactly when the dimensions fit the
/// format.
pub fn export_canvas(img: &SourceImage, format: OutputFormat) -> (r: Result<Vec<u8>, ExportError>)
    requires
        img.wf(),
    ensures
        match format {
            OutputFormat::Png => r matches Ok(b) && b@ == png_of(
                img.width,
                img.height,
                img.is_gray(),
                img.raw(),
            ),
            OutputFormat::Jpeg => ((r matches Ok(_)) <==> (img.width <= 65535 && img.height
                <= 65535)) && (r matches Ok(b) ==> b@ == jpeg_of(
                img.width,
                img.height,
                img.is_gray(),
                img.raw(),
            )) && (r matches Err(e) ==> e == ExportError::TooLargeForFormat),
        },
{
    match format {
        OutputFormat::Png => Ok(export_png(img)),
        OutputFormat::Jpeg => export_jpeg(img),
    }
}

} // verus!
