//! Decoding the bytes of an image file into a raster.

use vstd::prelude::*;
use image::{ImageError, ImageFormat, ImageReader};
use crate::raster::{rgba_len, rgba_size, Raster, RasterView};

verus! {

/// The decoder's error. Only its presence is looked at.
#[verifier::external_type_specification]
#[verifier::external_body]
pub struct ExImageError(image::ImageError);

/// An image format of the decoder. Only its presence is looked at.
#[verifier::external_type_specification]
#[verifier::external_body]
pub struct ExImageFormat(image::ImageFormat);

/// Whether the extension of a path names an image format: whether
/// `ImageFormat::from_path` finds it, without regard to case, in the
/// decoder's table of extensions. Where the extension starts is a matter of
/// the path rules of the platform that the library is built for.
pub uninterp spec fn names_format(path: Seq<char>) -> bool;

/// `ImageFormat::from_path`: the format that the extension of `path` names,
/// or the decoder's error where it names none. The lookup reads nothing but
/// the path.
#[verifier::external_body]
fn format_from_path(path: &str) -> (format: Result<ImageFormat, ImageError>)
    ensures
        format is Ok <==> names_format(path@),
{
    ImageFormat::from_path(path)
}

/// The dimensions of the image that the decoder makes of the content of a
/// file, read in the format that the extension of its path names; `None`
/// where the decoder refuses the content. The decoder reads nothing but the
/// bytes it is given. The pixel values have no name: a decoder may pick its
/// code by what the processor offers, and nothing here rests on every such
/// choice computing the same bytes.
pub uninterp spec fn decoded_size(bytes: Seq<u8>, path: Seq<char>) -> Option<(u32, u32)>;

/// `ImageReader::decode` on a reader over `bytes`, made by
/// `ImageReader::with_format` with the format that `ImageFormat::from_path`
/// finds for `path`; then `DynamicImage::into_rgba8`, taken apart with
/// `ImageBuffer::width`, `height` and `into_raw`. What comes back are the
/// dimensions and the buffer of the image in RGBA with eight bits per
/// channel, or `None` where the decoder refuses the bytes. An image buffer
/// is only ever made of a container that holds all its pixels, so the
/// buffer is at least as long as the dimensions need.
#[verifier::external_body]
fn decode_rgba(bytes: Vec<u8>, path: &str) -> (parts: Option<(u32, u32, Vec<u8>)>)
    requires
        names_format(path@),
    ensures
        match parts {
            Some((width, height, pixels)) => {
                &&& decoded_size(bytes@, path@) == Some((width, height))
                &&& pixels@.len() >= rgba_len(width as int, height as int)
            },
            None => decoded_size(bytes@, path@) is None,
        },
{
    let format = ImageFormat::from_path(path).ok()?;
    let image = ImageReader::with_format(std::io::Cursor::new(bytes), format).decode().ok()?;
    let rgba = image.into_rgba8();
    Some((rgba.width(), rgba.height(), rgba.into_raw()))
}

/// Why the bytes of a file gave no raster.
#[derive(Clone, Copy, Debug, PartialEq, Eq, Structural)]
pub enum DecodeError {
    /// The extension of the path names no image format.
    UnknownFormat,
    /// The decoder refused the bytes.
    Malformed,
    /// A buffer holds fewer bytes than its dimensions need. The decoder
    /// hands out none such.
    ShortBuffer,
}

/// The raster that a decoder's output stands for: the first
/// `4 * width * height` bytes of the buffer.
pub open spec fn raster_of(width: u32, height: u32, pixels: Seq<u8>) -> Result<RasterView, DecodeError> {
    if pixels.len() < rgba_len(width as int, height as int) {
        Err(DecodeError::ShortBuffer)
    } else {
        Ok(RasterView { width, height, pixels: pixels.take(rgba_len(width as int, height as int)) })
    }
}

/// Builds the raster from what a decoder handed out. A buffer may be longer
/// than the pixels need; what is beyond them is dropped.
pub fn raster_from_rgba(width: u32, height: u32, pixels: Vec<u8>) -> (raster: Result<Raster, DecodeError>)
    ensures
        raster is Ok <==> raster_of(width, height, pixels@) is Ok,
        raster matches Ok(r) ==> Ok::<RasterView, DecodeError>(r@) == raster_of(width, height, pixels@) && r@.complete(),
        raster matches Err(e) ==> Err::<RasterView, DecodeError>(e) == raster_of(width, height, pixels@),
{
    let size = rgba_size(width, height);
    if (pixels.len() as u128) < size {
        return Err(DecodeError::ShortBuffer);
    }
    let mut pixels = pixels;
    pixels.truncate(size as usize);
    match Raster::new(width, height, pixels) {
        Some(raster) => Ok(raster),
        None => Err(DecodeError::ShortBuffer),
    }
}

/// What decoding the content of a file comes to: the dimensions of the
/// image, or the reason why there is none. A path whose extension names no
/// format is refused before the decoder sees the bytes.
pub open spec fn decoding_of(bytes: Seq<u8>, path: Seq<char>) -> Result<(u32, u32), DecodeError> {
    if !names_format(path) {
        Err(DecodeError::UnknownFormat)
    } else {
        match decoded_size(bytes, path) {
            None => Err(DecodeError::Malformed),
            Some(size) => Ok(size),
        }
    }
}

/// Decodes the content of the file at `full_path`, in the format that the
/// path's extension names, into RGBA.
///
/// A path whose extension names no format is refused with `UnknownFormat`,
/// bytes that the decoder refuses with `Malformed`. Everything else gives a
/// raster of the dimensions that the decoder found, which holds exactly its
/// pixels.
pub fn decode_image(bytes: Vec<u8>, full_path: &str) -> (decoded: Result<Raster, DecodeError>)
    ensures
        match decoding_of(bytes@, full_path@) {
            Err(e) => decoded == Err::<Raster, DecodeError>(e),
            Ok((width, height)) => {
                &&& decoded matches Ok(raster)
                &&& raster@.width == width
                &&& raster@.height == height
                &&& raster@.complete()
            },
        },
{
    if format_from_path(full_path).is_err() {
        return Err(DecodeError::UnknownFormat);
    }
    match decode_rgba(bytes, full_path) {
        None => Err(DecodeError::Malformed),
        Some((width, height, pixels)) => raster_from_rgba(width, height, pixels),
    }
}

} // verus!
