use vstd::prelude::*;

use crate::error::ScannrsError;

verus! {

#[verifier::external_type_specification]
#[verifier::external_body]
pub struct ExDynamicImage(image::DynamicImage);

/// Whether an image of `width` by `height` pixels of `channels` bytes each
/// can be built from `len` bytes by `ImageBuffer::from_raw`: the size it
/// computes must not overflow `usize` and must not exceed `len`.
pub open spec fn raw_fits(channels: int, width: u32, height: u32, len: int) -> bool {
    channels * width <= usize::MAX && channels * width * height <= usize::MAX
        && channels * width * height <= len
}

/// Relies on `image::GrayImage::from_raw`, which yields an image exactly when
/// the buffer holds at least one byte per pixel, and on the `From` conversion
/// into `DynamicImage`.
#[verifier::external_body]
fn gray_from_raw(width: u32, height: u32, data: Vec<u8>) -> (r: Option<image::DynamicImage>)
    ensures
        r is Some <==> raw_fits(1, width, height, data@.len() as int),
{
    image::GrayImage::from_raw(width, height, data).map(image::DynamicImage::from)
}

/// Relies on `image::RgbImage::from_raw`, which yields an image exactly when
/// the buffer holds at least three bytes per pixel, and on the `From`
/// conversion into `DynamicImage`.
#[verifier::external_body]
fn rgb_from_raw(width: u32, height: u32, data: Vec<u8>) -> (r: Option<image::DynamicImage>)
    ensures
        r is Some <==> raw_fits(3, width, height, data@.len() as int),
{
    image::RgbImage::from_raw(width, height, data).map(image::DynamicImage::from)
}

/// How the samples of a frame map to pixels.
#[derive(Debug, Clone, Copy, PartialEq, Eq, Structural)]
pub enum ColorLayout {
    /// One byte per pixel.
    Gray,
    /// Three consecutive bytes per pixel: red, green, blue.
    Rgb,
    /// Only the red plane.
    Red,
    /// Only the green plane.
    Green,
    /// Only the blue plane.
    Blue,
}

/// Whether images of this layout can be rebuilt.
pub open spec fn supported(l: ColorLayout) -> bool {
    l is Gray || l is Rgb
}

/// Bytes per pixel of a supported layout.
pub open spec fn bytes_per_pixel(l: ColorLayout) -> int {
    if l is Rgb {
        3
    } else {
        1
    }
}

/// The geometry a device reports before it sends the samples.
#[derive(Debug, Clone, Copy, PartialEq, Eq, Structural)]
pub struct AcquisitionParams {
    pub format: ColorLayout,
    pub pixels_per_line: u32,
    pub lines: u32,
    pub depth: u32,
}

/// The number of sample bytes a frame of this geometry consists of.
pub open spec fn expected_len(p: AcquisitionParams) -> int {
    bytes_per_pixel(p.format) * p.pixels_per_line * p.lines
}

/// A rebuilt image with the geometry it was built from.
pub struct ScannedImage {
    pub width: u32,
    pub height: u32,
    pub layout: ColorLayout,
    pub image: image::DynamicImage,
}

/// The error for samples that do not match the reported geometry.
pub open spec fn size_error(p: AcquisitionParams, len: int) -> ScannrsError {
    ScannrsError::InvalidImageSize {
        width: p.pixels_per_line,
        height: p.lines,
        buffer_size: len as usize,
        pixel_size: p.depth,
    }
}

/// Rebuilds the image a device sent: `data` must hold exactly one byte per
/// pixel for a gray frame and three for an RGB frame, row after row.
pub fn reconstruct(params: &AcquisitionParams, data: Vec<u8>) -> (r: Result<ScannedImage, ScannrsError>)
    requires
        supported(params.format),
    ensures
        r is Ok <==> data@.len() == expected_len(*params) && bytes_per_pixel(params.format)
            * params.pixels_per_line <= usize::MAX,
        r matches Ok(img) ==> img.width == params.pixels_per_line && img.height == params.lines
            && img.layout == params.format,
        r matches Err(e) ==> e == size_error(*params, data@.len() as int),
{
    let width = params.pixels_per_line;
    let height = params.lines;
    let buffer_size = data.len();
    let per_pixel: u64 = match params.format {
        ColorLayout::Rgb => 3,
        _ => 1,
    };
    assert(width as u64 * height as u64 <= u64::MAX) by (nonlinear_arith)
        requires
            width <= u32::MAX,
            height <= u32::MAX,
    ;
    let pixels: u64 = width as u64 * height as u64;
    let exact = match pixels.checked_mul(per_pixel) {
        Some(n) => n == buffer_size as u64,
        None => false,
    };
    assert(pixels * per_pixel == expected_len(*params)) by (nonlinear_arith)
        requires
            pixels == width * height,
            per_pixel == bytes_per_pixel(params.format),
            expected_len(*params) == bytes_per_pixel(params.format) * params.pixels_per_line
                * params.lines,
            width == params.pixels_per_line,
            height == params.lines,
    ;
    let err = ScannrsError::InvalidImageSize {
        width,
        height,
        buffer_size,
        pixel_size: params.depth,
    };
    if !exact {
        return Err(err);
    }
    let built = match params.format {
        ColorLayout::Rgb => rgb_from_raw(width, height, data),
        _ => gray_from_raw(width, height, data),
    };
    match built {
        Some(image) => Ok(ScannedImage { width, height, layout: params.format, image }),
        None => Err(err),
    }
}

} // verus!
