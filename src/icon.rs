use image::ImageFormat;
use vstd::prelude::*;
use winit::window::{BadIcon, Icon};

verus! {

#[verifier::external_type_specification]
#[verifier::external_body]
pub struct ExIcon(winit::window::Icon);

#[verifier::external_type_specification]
#[verifier::external_body]
pub struct ExImageError(image::ImageError);

/// Why an icon could not be made from an encoded image.
#[derive(Debug, Clone, Copy, PartialEq, Eq, Structural)]
pub enum IconError {
    /// The bytes are not a PNG image that can be decoded.
    Decode,
    /// Width times height does not fit in 32 bits.
    TooLarge,
    /// The pixel data is not four bytes for each of width times height pixels.
    Rejected,
    /// The operating system failed to make an icon of well-formed pixel data.
    System,
}

/// Why the windowing system refused to make an icon.
#[derive(Debug, Clone, Copy, PartialEq, Eq, Structural)]
enum IconRefusal {
    /// The pixel data does not match the dimensions.
    Dimensions,
    /// The operating system failed.
    System,
}

/// What decoding `bytes` as a PNG image and converting it to 8-bit RGBA
/// gives: the pixel bytes, the width and the height; `None` where the bytes
/// do not decode.
pub uninterp spec fn png_rgba_decoding(bytes: Seq<u8>) -> Option<(Seq<u8>, u32, u32)>;

/// The number of pixels of an image of `width` by `height`.
pub open spec fn pixel_count(width: u32, height: u32) -> int {
    width as int * height as int
}

/// Pixel data of `len` bytes holds exactly four bytes for each of
/// `width * height` pixels.
pub open spec fn fits_dimensions(len: int, width: u32, height: u32) -> bool {
    len % 4 == 0 && len / 4 == pixel_count(width, height)
}

/// `r` is what making an icon of `width` by `height` pixels from `len` bytes
/// of RGBA data may give: `TooLarge` exactly when the pixel count does not
/// fit in 32 bits, else `Rejected` exactly when the data does not match the
/// dimensions; success or a `System` failure only for data that matches.
pub open spec fn made_from_pixels<T>(r: Result<T, IconError>, len: int, width: u32, height: u32) -> bool {
    &&& (r == Err::<T, IconError>(IconError::TooLarge) <==> pixel_count(width, height) > u32::MAX)
    &&& (r == Err::<T, IconError>(IconError::Rejected) <==> pixel_count(width, height) <= u32::MAX
        && !fits_dimensions(len, width, height))
    &&& (r is Ok || r == Err::<T, IconError>(IconError::System)) ==> pixel_count(width, height)
        <= u32::MAX && fits_dimensions(len, width, height)
    &&& r != Err::<T, IconError>(IconError::Decode)
}

/// `r` is what making an icon from the encoded image `bytes` may give:
/// `Decode` exactly when the bytes do not decode, and otherwise what
/// `made_from_pixels` allows for the decoded pixels.
pub open spec fn made_from_encoded<T>(r: Result<T, IconError>, bytes: Seq<u8>) -> bool {
    match png_rgba_decoding(bytes) {
        None => r == Err::<T, IconError>(IconError::Decode),
        Some((pixels, width, height)) => made_from_pixels(r, pixels.len() as int, width, height),
    }
}

/// Relies on image::load_from_memory_with_format with the PNG format, followed
/// by DynamicImage::into_rgba8: with the format fixed, no decoding hook is
/// consulted, so the result depends on the bytes alone; an RGBA buffer holds
/// at least four bytes for each pixel.
#[verifier::external_body]
fn decode_png_rgba(bytes: &[u8]) -> (r: Result<(Vec<u8>, u32, u32), image::ImageError>)
    ensures
        match r {
            Ok((pixels, width, height)) => {
                &&& png_rgba_decoding(bytes@) == Some((pixels@, width, height))
                &&& pixels@.len() >= 4 * pixel_count(width, height)
            },
            Err(_) => png_rgba_decoding(bytes@) is None,
        },
{
    let image = image::load_from_memory_with_format(bytes, ImageFormat::Png)?.into_rgba8();
    let (width, height) = image.dimensions();
    Ok((image.into_raw(), width, height))
}

/// Relies on winit::window::Icon::from_rgba. On every platform it first
/// refuses, with a dimension error, exactly the pixel data that is not four
/// bytes for each of `width * height` pixels (a product it computes in 32
/// bits); only then may the operating system fail.
#[verifier::external_body]
fn rgba_icon(rgba: Vec<u8>, width: u32, height: u32) -> (r: Result<Icon, IconRefusal>)
    requires
        pixel_count(width, height) <= u32::MAX,
    ensures
        (r == Err::<Icon, IconRefusal>(IconRefusal::Dimensions)) == !fits_dimensions(rgba@.len() as int, width, height),
{
    Icon::from_rgba(rgba, width, height).map_err(|e| match e {
        BadIcon::ByteCountNotDivisibleBy4 { .. } => IconRefusal::Dimensions,
        BadIcon::DimensionsVsPixelCount { .. } => IconRefusal::Dimensions,
        BadIcon::OsError(_) => IconRefusal::System,
    })
}

/// Makes an icon of `width` by `height` pixels from RGBA bytes, four for each
/// pixel, row by row.
pub fn icon_from_rgba(rgba: Vec<u8>, width: u32, height: u32) -> (r: Result<Icon, IconError>)
    ensures
        made_from_pixels(r, rgba@.len() as int, width, height),
{
    match width.checked_mul(height) {
        None => Err(IconError::TooLarge),
        Some(_) => match rgba_icon(rgba, width, height) {
            Ok(icon) => Ok(icon),
            Err(IconRefusal::Dimensions) => Err(IconError::Rejected),
            Err(IconRefusal::System) => Err(IconError::System),
        },
    }
}

/// Decodes a PNG image and makes an icon of its pixels.
pub fn load_icon(bytes: &[u8]) -> (r: Result<Icon, IconError>)
    ensures
        made_from_encoded(r, bytes@),
{
    match decode_png_rgba(bytes) {
        Err(_) => Err(IconError::Decode),
        Ok((pixels, width, height)) => icon_from_rgba(pixels, width, height),
    }
}

} // verus!
