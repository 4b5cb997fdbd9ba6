//! The trusted boundary to the `image` crate: decoding, resampling and PNG
//! encoding of pixel rasters. Every item here is believed, not proved; each
//! doc comment names the outside function relied on.

use vstd::prelude::*;

verus! {

#[verifier::external_type_specification]
#[verifier::external_body]
pub struct ExDynamicImage(image::DynamicImage);

#[verifier::external_type_specification]
#[verifier::external_body]
pub struct ExImageError(image::ImageError);

/// Cap on `width * height` for any raster this library handles; keeps every
/// buffer far below both the decoder's default allocation limit and 32-bit
/// address-space limits.
pub const MAX_PIXELS: u64 = 30000000;

/// What a decoded image holds, as far as this library reads it: its
/// dimensions and its pixel samples, all functions of the image value alone.
pub uninterp spec fn img_dims(img: image::DynamicImage) -> (u32, u32);

/// The single-channel lightness samples of a decoded image, row-major.
pub uninterp spec fn gray_levels(img: image::DynamicImage) -> Seq<u8>;

/// The interleaved R, G, B samples of a decoded image, row-major.
pub uninterp spec fn rgb_levels(img: image::DynamicImage) -> Seq<u8>;

/// The PNG encoding of a raster: a pure function of the dimensions, the
/// color layout and the sample bytes.
pub uninterp spec fn png_of(width: u32, height: u32, gray: bool, data: Seq<u8>) -> Seq<u8>;

/// The JPEG encoding of a raster: a pure function of the dimensions, the
/// color layout and the sample bytes.
pub uninterp spec fn jpeg_of(width: u32, height: u32, gray: bool, data: Seq<u8>) -> Seq<u8>;

/// What `image::load_from_memory` makes of a byte sequence: `Some` with the
/// decoded image's dimensions when the bytes decode, `None` when they do
/// not. Decoding is deterministic, a function of the bytes alone.
pub uninterp spec fn decoded_dims(bytes: Seq<u8>) -> Option<(u32, u32)>;

/// Samples per pixel: one lightness channel, or three color channels.
pub open spec fn channel_count(gray: bool) -> int {
    if gray {
        1
    } else {
        3
    }
}

/// A raster description that this library both encodes and re-decodes:
/// nonempty, within the pixel cap, with a sample buffer that matches the
/// dimensions exactly.
pub open spec fn png_arg_ok(width: u32, height: u32, gray: bool, data: Seq<u8>) -> bool {
    &&& width >= 1
    &&& height >= 1
    &&& (width as int) * (height as int) <= MAX_PIXELS as int
    &&& data.len() == channel_count(gray) * (width as int) * (height as int)
}

/// Relies on `image::load_from_memory`: decoding is deterministic, so its
/// outcome on given bytes is named `decoded_dims` — `Some` dimensions on
/// success, `None` on failure. PNG is lossless, so bytes that are the PNG
/// encoding of a raster within this library's cap decode back to an image
/// of the raster's dimensions; sizes stay far below the decoder's default
/// allocation limit.
#[verifier::external_body]
pub(crate) fn decode_image(bytes: &[u8]) -> (r: Result<image::DynamicImage, image::ImageError>)
    ensures
        match r {
            Ok(img) => decoded_dims(bytes@) == Some(img_dims(img)) && forall|
                w: u32,
                h: u32,
                g: bool,
                d: Seq<u8>,
            |
                png_arg_ok(w, h, g, d) && bytes@ == #[trigger] png_of(w, h, g, d) ==> img_dims(img)
                    == (w, h),
            Err(_) => decoded_dims(bytes@) is None && forall|w: u32, h: u32, g: bool, d: Seq<u8>|
                png_arg_ok(w, h, g, d) ==> bytes@ != #[trigger] png_of(w, h, g, d),
        },
{
    image::load_from_memory(bytes)
}

/// Relies on `DynamicImage::width` and `DynamicImage::height`: they report
/// the decoded image's dimensions.
#[verifier::external_body]
pub(crate) fn image_dims(img: &image::DynamicImage) -> (r: (u32, u32))
    ensures
        r == img_dims(*img),
{
    (img.width(), img.height())
}

/// Relies on `DynamicImage::resize_exact` (through `imageops::resize`): the
/// result has exactly the requested dimensions, whatever samples the
/// Catmull-Rom filter computes for it. The cap keeps the output buffer well
/// inside 32-bit address space, so allocation cannot overflow.
#[verifier::external_body]
pub(crate) fn resize_to(img: &image::DynamicImage, width: u32, height: u32) -> (r:
    image::DynamicImage)
    requires
        width >= 1,
        height >= 1,
        (width as int) * (height as int) <= MAX_PIXELS as int,
    ensures
        img_dims(r) == (width, height),
{
    img.resize_exact(width, height, image::imageops::FilterType::CatmullRom)
}

/// Relies on `DynamicImage::to_luma8` and `ImageBuffer::into_raw`: the
/// buffer holds one lightness byte per pixel, row-major, a function of the
/// image alone, named `gray_levels`.
#[verifier::external_body]
pub(crate) fn to_gray_raw(img: &image::DynamicImage) -> (r: Vec<u8>)
    ensures
        r@ == gray_levels(*img),
        r@.len() == 1 * (img_dims(*img).0 as int) * (img_dims(*img).1 as int),
{
    img.to_luma8().into_raw()
}

/// Relies on `DynamicImage::to_rgb8` and `ImageBuffer::into_raw`: the buffer
/// holds three interleaved color bytes per pixel, row-major, a function of
/// the image alone, named `rgb_levels`.
#[verifier::external_body]
pub(crate) fn to_rgb_raw(img: &image::DynamicImage) -> (r: Vec<u8>)
    ensures
        r@ == rgb_levels(*img),
        r@.len() == 3 * (img_dims(*img).0 as int) * (img_dims(*img).1 as int),
{
    img.to_rgb8().into_raw()
}

/// Relies on `image::write_buffer_with_format` with the PNG encoder: the
/// encoding is a pure function of the raster handed in, named `png_of`. The
/// encoder demands a buffer whose length matches the dimensions (it panics
/// otherwise), which the precondition guarantees; its only errors are zero
/// dimensions and write failures, and writes into a memory cursor cannot
/// fail, so within the pixel cap a nonempty raster always encodes.
#[verifier::external_body]
pub(crate) fn encode_png_bytes(width: u32, height: u32, gray: bool, data: &[u8]) -> (r: Result<
    Vec<u8>,
    image::ImageError,
>)
    requires
        data@.len() == channel_count(gray) * (width as int) * (height as int),
    ensures
        r matches Ok(b) ==> b@ == png_of(width, height, gray, data@),
        width >= 1 && height >= 1 && (width as int) * (height as int) <= MAX_PIXELS as int ==> (r
            matches Ok(_)),
{
    let color = if gray { image::ExtendedColorType::L8 } else { image::ExtendedColorType::Rgb8 };
    let mut cursor = std::io::Cursor::new(Vec::new());
    let fmt = image::ImageFormat::Png;
    image::write_buffer_with_format(&mut cursor, data, width, height, color, fmt)
        .map(|_| cursor.into_inner())
}

/// Relies on `image::write_buffer_with_format` with the JPEG encoder: the
/// encoding is a pure function of the raster handed in, named `jpeg_of`. The
/// buffer-length panic is excluded by the precondition; the encoder returns
/// an error exactly when a dimension falls outside `1..=65535`, and writes
/// into a memory cursor cannot fail, so within that range it always encodes.
#[verifier::external_body]
pub(crate) fn encode_jpeg_bytes(width: u32, height: u32, gray: bool, data: &[u8]) -> (r: Result<
    Vec<u8>,
    image::ImageError,
>)
    requires
        data@.len() == channel_count(gray) * (width as int) * (height as int),
    ensures
        r matches Ok(b) ==> b@ == jpeg_of(width, height, gray, data@),
        (r matches Ok(_)) <==> (1 <= width <= 65535 && 1 <= height <= 65535),
{
    let color = if gray { image::ExtendedColorType::L8 } else { image::ExtendedColorType::Rgb8 };
    let mut cursor = std::io::Cursor::new(Vec::new());
    let fmt = image::ImageFormat::Jpeg;
    image::write_buffer_with_format(&mut cursor, data, width, height, color, fmt)
        .map(|_| cursor.into_inner())
}

} // verus!
