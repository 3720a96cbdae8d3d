//! Resampling a raster to new dimensions with the convolution resizer.

use vstd::prelude::*;
use fast_image_resize::images::Image as PixelImage;
use fast_image_resize::{ImageBufferError, PixelType, ResizeError, Resizer};
use crate::raster::{rgba_len, rgba_size, Raster};
use crate::resize::{keeps_size, target_size, Resize};

verus! {

/// An image of the resizer: dimensions, and the pixel buffer it owns.
/// The verifier does not look inside; what it knows of the buffer it has
/// from `buffer_of` and the four functions below.
#[verifier::external_body]
pub struct PixelBuffer {
    image: fast_image_resize::images::Image<'static>,
}

/// The resizer's error on a buffer it cannot take. Only its presence is
/// looked at.
#[verifier::external_type_specification]
#[verifier::external_body]
pub struct ExImageBufferError(fast_image_resize::ImageBufferError);

/// The resizer's error on images it cannot resize. Only its presence is
/// looked at.
#[verifier::external_type_specification]
#[verifier::external_body]
pub struct ExResizeError(fast_image_resize::ResizeError);

/// The bytes of the pixel buffer that an image of the resizer owns.
pub uninterp spec fn buffer_of(held: PixelBuffer) -> Seq<u8>;

/// `Image::from_vec_u8` for four bytes per pixel. It refuses a buffer that
/// is shorter than the dimensions need and takes every other: a pixel of
/// four bytes has an alignment of one, so no byte buffer is misaligned for
/// it. An image that it makes owns the buffer it was given.
#[verifier::external_body]
fn buffer_from_rgba(width: u32, height: u32, pixels: Vec<u8>) -> (made: Result<PixelBuffer, ImageBufferError>)
    requires
        rgba_len(width as int, height as int) <= usize::MAX,
    ensures
        made is Ok <==> pixels@.len() >= rgba_len(width as int, height as int),
        made matches Ok(held) ==> buffer_of(held) == pixels@,
{
    PixelImage::from_vec_u8(width, height, pixels, PixelType::U8x4).map(|image| PixelBuffer { image })
}

/// `Image::new` for four bytes per pixel: an image whose buffer holds
/// `4 * width * height` zero bytes.
#[verifier::external_body]
fn blank_rgba(width: u32, height: u32) -> (held: PixelBuffer)
    requires
        rgba_len(width as int, height as int) <= isize::MAX,
    ensures
        buffer_of(held) == Seq::new(rgba_len(width as int, height as int) as nat, |i: int| 0u8),
{
    PixelBuffer { image: PixelImage::new(width, height, PixelType::U8x4) }
}

/// `Resizer::resize` on a new `Resizer` with its default options
/// (convolution with the Lanczos3 filter). It fails on images of different
/// or unsupported pixel types and on a crop box outside the source; every
/// `PixelBuffer` has four bytes per pixel and no crop box is set, so it
/// succeeds. It writes the target's pixels in place: the target's buffer
/// keeps its length.
#[verifier::external_body]
fn resize_into(source: &PixelBuffer, target: &mut PixelBuffer) -> (done: Result<(), ResizeError>)
    ensures
        done is Ok,
        buffer_of(*final(target)).len() == buffer_of(*old(target)).len(),
{
    Resizer::new().resize(&source.image, &mut target.image, None)
}

/// `Image::into_vec`: the buffer that the image owned.
#[verifier::external_body]
fn into_bytes(held: PixelBuffer) -> (bytes: Vec<u8>)
    ensures
        bytes@ == buffer_of(held),
{
    held.image.into_vec()
}

/// Why a raster could not be brought to new dimensions.
#[derive(Clone, Copy, Debug, PartialEq, Eq, Structural)]
pub enum ResampleError {
    /// The source has no pixels to scale from.
    EmptySource,
    /// The new dimensions cannot be held: a side beyond `u32`, or more
    /// bytes than a buffer can have.
    TooLarge,
    /// The resizer refused the images. It refuses none that this library
    /// hands it; the variant is there for the arms that take its error.
    Resizer,
}

/// Whether a buffer for `width * height` RGBA pixels can be allocated.
pub open spec fn fits_buffer(width: int, height: int) -> bool {
    rgba_len(width, height) <= isize::MAX
}

/// Resamples `image` to `new_width * new_height` pixels.
///
/// Dimensions whose buffer would be longer than any buffer can be are
/// refused with `TooLarge`. Every other resampling succeeds and gives a
/// raster of the new dimensions. As with every allocation, a buffer that
/// the machine has no memory for ends the process.
pub fn resize_dynamic_image(image: Raster, new_width: u32, new_height: u32) -> (resized: Result<Raster, ResampleError>)
    ensures
        resized is Ok <==> fits_buffer(new_width as int, new_height as int),
        resized matches Ok(raster) ==> {
            &&& raster@.width == new_width
            &&& raster@.height == new_height
            &&& raster@.complete()
        },
        resized matches Err(e) ==> e == ResampleError::TooLarge,
{
    if rgba_size(new_width, new_height) > isize::MAX as u128 {
        return Err(ResampleError::TooLarge);
    }
    let (width, height, pixels) = image.into_parts();
    let source = match buffer_from_rgba(width, height, pixels) {
        Ok(source) => source,
        Err(_) => {
            return Err(ResampleError::Resizer);
        },
    };
    let mut target = blank_rgba(new_width, new_height);
    match resize_into(&source, &mut target) {
        Ok(()) => {},
        Err(_) => {
            return Err(ResampleError::Resizer);
        },
    }
    match Raster::new(new_width, new_height, into_bytes(target)) {
        Some(raster) => Ok(raster),
        None => Err(ResampleError::Resizer),
    }
}

/// What is to be done with an image before it is encoded.
#[derive(Clone, Copy, Debug, PartialEq, Eq, Structural)]
pub enum ResizePlan {
    /// The image is encoded as it is.
    Keep,
    /// The image is resampled to these dimensions.
    Resample { width: u32, height: u32 },
    /// The image cannot be scaled.
    Refuse(ResampleError),
}

/// The plan for an image of `width` by `height`: kept where the policy
/// keeps its size; refused where it has no pixels, or where the target
/// dimensions cannot be held; resampled to the target dimensions otherwise.
pub open spec fn plan_of(resize: Resize, resize_to: int, width: int, height: int, enlarge: bool) -> ResizePlan {
    if keeps_size(resize, resize_to, width, height, enlarge) {
        ResizePlan::Keep
    } else if width <= 0 || height <= 0 {
        ResizePlan::Refuse(ResampleError::EmptySource)
    } else {
        let (new_width, new_height) = target_size(resize, resize_to, width, height, enlarge);
        if new_width > u32::MAX || new_height > u32::MAX || !fits_buffer(new_width, new_height) {
            ResizePlan::Refuse(ResampleError::TooLarge)
        } else {
            ResizePlan::Resample { width: new_width as u32, height: new_height as u32 }
        }
    }
}

/// Decides what is to be done with an image of `width` by `height`.
pub fn resize_plan(resize: Resize, resize_to: u32, width: u32, height: u32, is_enlarging_allowed: bool) -> (plan: ResizePlan)
    ensures
        plan == plan_of(resize, resize_to as int, width as int, height as int, is_enlarging_allowed),
{
    if !resize.applies(resize_to, width, height, is_enlarging_allowed) {
        return ResizePlan::Keep;
    }
    if width == 0 || height == 0 {
        return ResizePlan::Refuse(ResampleError::EmptySource);
    }
    let (new_width, new_height) = resize.compute(resize_to, width, height, is_enlarging_allowed);
    if new_width > u32::MAX as u64 || new_height > u32::MAX as u64 {
        return ResizePlan::Refuse(ResampleError::TooLarge);
    }
    if rgba_size(new_width as u32, new_height as u32) > isize::MAX as u128 {
        return ResizePlan::Refuse(ResampleError::TooLarge);
    }
    ResizePlan::Resample { width: new_width as u32, height: new_height as u32 }
}

/// Brings `src_image` to the dimensions that the policy assigns to it.
///
/// An image that the plan keeps comes back untouched, one that the plan
/// refuses gives the plan's error, and one that the plan resamples comes
/// back as a raster of the planned dimensions.
pub fn resize_if_needed(src_image: Raster, resize: Resize, resize_to: u32, is_enlarging_allowed: bool) -> (resized: Result<
    Raster,
    ResampleError,
>)
    ensures
        match plan_of(resize, resize_to as int, src_image@.width as int, src_image@.height as int, is_enlarging_allowed) {
            ResizePlan::Keep => resized matches Ok(raster) && raster@ == src_image@,
            ResizePlan::Refuse(e) => resized == Err::<Raster, ResampleError>(e),
            ResizePlan::Resample { width, height } => {
                &&& resized matches Ok(raster)
                &&& raster@.width == width
                &&& raster@.height == height
                &&& raster@.complete()
            },
        },
{
    match resize_plan(resize, resize_to, src_image.width(), src_image.height(), is_enlarging_allowed) {
        ResizePlan::Keep => Ok(src_image),
        ResizePlan::Refuse(e) => Err(e),
        ResizePlan::Resample { width, height } => resize_dynamic_image(src_image, width, height),
    }
}

} // verus!
