//! What happens to one image between its source file and its WebP file:
//! loading, and the decisions around the encoder and the write.

use vstd::prelude::*;
use std::path::Path;
use crate::decode::{decode_image, decoding_of, DecodeError};
use crate::events::TranscodeError;
use crate::item::{Image, ImageView, Parameters, ParametersView};
use crate::raster::{Raster, RasterView};
use crate::resample::{plan_of, resize_if_needed, ResizePlan};

verus! {

/// What holds of the raster that is handed to the encoder, given what the
/// decoder made of the source.
pub open spec fn prepared_as(decoded: Result<RasterView, DecodeError>, parameters: ParametersView, prepared: Result<
    RasterView,
    TranscodeError,
>) -> bool {
    match decoded {
        Err(_) => prepared == Err::<RasterView, TranscodeError>(TranscodeError::Decode),
        Ok(source) => match plan_of(
            parameters.resize,
            parameters.resize_to as int,
            source.width as int,
            source.height as int,
            parameters.is_enlarging_allowed,
        ) {
            ResizePlan::Keep => prepared == Ok::<RasterView, TranscodeError>(source),
            ResizePlan::Refuse(_) => prepared == Err::<RasterView, TranscodeError>(TranscodeError::Encode),
            ResizePlan::Resample { width, height } => {
                &&& prepared matches Ok(raster)
                &&& raster.width == width
                &&& raster.height == height
                &&& raster.complete()
            },
        },
    }
}

/// The view of what loading gave.
pub open spec fn loaded_view(loaded: Result<Raster, TranscodeError>) -> Result<RasterView, TranscodeError> {
    match loaded {
        Ok(raster) => Ok(raster@),
        Err(e) => Err(e),
    }
}

/// The view of what decoding gave.
pub open spec fn decoded_view(decoded: Result<Raster, DecodeError>) -> Result<RasterView, DecodeError> {
    match decoded {
        Ok(raster) => Ok(raster@),
        Err(e) => Err(e),
    }
}

/// Brings a decoded image to the dimensions that the parameters ask for.
///
/// A source that did not decode is a `Decode` error. An image that is to be
/// kept goes through untouched, one that is to be resampled comes back with
/// the planned dimensions, and one that cannot be scaled is an `Encode`
/// error.
pub fn prepare(decoded: Result<Raster, DecodeError>, parameters: &Parameters) -> (prepared: Result<Raster, TranscodeError>)
    ensures
        prepared_as(decoded_view(decoded), parameters@, loaded_view(prepared)),
{
    match decoded {
        Err(_) => Err(TranscodeError::Decode),
        Ok(source) => match resize_if_needed(
            source,
            parameters.resize,
            parameters.resize_to,
            parameters.is_enlarging_allowed,
        ) {
            Ok(raster) => Ok(raster),
            Err(_) => Err(TranscodeError::Encode),
        },
    }
}

/// What loading the image of `item` comes to, given the content of its
/// file, or `None` for a file that could not be read.
///
/// A file that cannot be read, or that does not decode under the item's
/// path, is a `Decode` error. A decoded image goes the way of its plan:
/// kept or resampled it is a raster of the dimensions that the plan ends
/// with, refused it is an `Encode` error.
pub open spec fn loaded_as(source: Option<Seq<u8>>, item: ImageView, parameters: ParametersView, loaded: Result<
    RasterView,
    TranscodeError,
>) -> bool {
    match source {
        None => loaded == Err::<RasterView, TranscodeError>(TranscodeError::Decode),
        Some(bytes) => match decoding_of(bytes, item.full_path) {
            Err(_) => loaded == Err::<RasterView, TranscodeError>(TranscodeError::Decode),
            Ok((width, height)) => match plan_of(
                parameters.resize,
                parameters.resize_to as int,
                width as int,
                height as int,
                parameters.is_enlarging_allowed,
            ) {
                ResizePlan::Keep => {
                    &&& loaded matches Ok(raster)
                    &&& raster.width == width
                    &&& raster.height == height
                    &&& raster.complete()
                },
                ResizePlan::Refuse(_) => loaded == Err::<RasterView, TranscodeError>(TranscodeError::Encode),
                ResizePlan::Resample { width: new_width, height: new_height } => {
                    &&& loaded matches Ok(raster)
                    &&& raster.width == new_width
                    &&& raster.height == new_height
                    &&& raster.complete()
                },
            },
        },
    }
}

/// The view of the content of a file, where it could be read.
pub open spec fn source_view(source: Option<Vec<u8>>) -> Option<Seq<u8>> {
    match source {
        Some(bytes) => Some(bytes@),
        None => None,
    }
}

/// Loads the image of `item` from the content of its file: decodes it in
/// the format that the item's path names, and resizes it as the parameters
/// ask. `None` stands for a file that could not be read.
pub fn load_image(source: Option<Vec<u8>>, item: &Image, parameters: &Parameters) -> (loaded: Result<Raster, TranscodeError>)
    ensures
        loaded_as(source_view(source), item@, parameters@, loaded_view(loaded)),
{
    match source {
        None => Err(TranscodeError::Decode),
        Some(bytes) => {
            let decoded = decode_image(bytes, item.full_path.as_str());
            prepare(decoded, parameters)
        },
    }
}

/// The path that `Path::join` makes of a directory and a name, by the path
/// rules of the platform that the library is built for.
pub uninterp spec fn joined(directory: Seq<char>, name: Seq<char>) -> Seq<char>;

/// The path that `Path::with_extension` makes of a path and an extension, by
/// the path rules of the platform that the library is built for.
pub uninterp spec fn extension_replaced(path: Seq<char>, extension: Seq<char>) -> Seq<char>;

/// Whether `extension` is free of path separators.
pub open spec fn plain_extension(extension: Seq<char>) -> bool {
    forall|i: int| 0 <= i < extension.len() ==> extension[i] != '/' && extension[i] != '\\'
}

/// `Path::join`, from text to text: `name` adjoined to `directory`.
#[verifier::external_body]
fn join_path(directory: &str, name: &str) -> (path: String)
    ensures
        path@ == joined(directory@, name@),
{
    Path::new(directory).join(name).to_string_lossy().into_owned()
}

/// `Path::with_extension`, from text to text: `path` with the extension of
/// its file name replaced, or added where it has none. The call panics on an
/// extension that holds a path separator.
#[verifier::external_body]
fn replace_extension(path: &str, extension: &str) -> (replaced: String)
    requires
        plain_extension(extension@),
    ensures
        replaced@ == extension_replaced(path@, extension@),
{
    Path::new(path).with_extension(extension).to_string_lossy().into_owned()
}

/// The directory that the converted file of `item` goes to: the save folder
/// where one is set, the item's own directory otherwise.
pub open spec fn directory_of(item: ImageView, parameters: ParametersView) -> Seq<char> {
    if parameters.save_folder.len() > 0 {
        parameters.save_folder
    } else {
        item.path
    }
}

/// Where the converted file of `item` goes: into its directory, under the
/// name of the source file with `webp` for its extension.
pub open spec fn destination_of(item: ImageView, parameters: ParametersView) -> Seq<char> {
    extension_replaced(joined(directory_of(item, parameters), item.filename), "webp"@)
}

/// Computes where the converted file of `item` goes.
pub fn destination(item: &Image, parameters: &Parameters) -> (path: String)
    ensures
        path@ == destination_of(item@, parameters@),
{
    let directory = if !parameters.save_folder.as_str().is_empty() {
        parameters.save_folder.as_str()
    } else {
        item.path.as_str()
    };
    let beside = join_path(directory, item.filename.as_str());
    proof {
        reveal_strlit("webp");
    }
    replace_extension(beside.as_str(), "webp")
}

/// The size in kilobytes that is reported for a written file: the size on
/// disk divided by 1024, rounded down; 0 where the size could not be read.
pub open spec fn kilobytes(size_on_disk: Option<u64>) -> u64 {
    match size_on_disk {
        Some(bytes) => bytes / 1024,
        None => 0,
    }
}

/// The size to report for a written file, from its size on disk in bytes
/// as it was read back, if it could be.
pub fn get_file_size(size_on_disk: Option<u64>) -> (size: u64)
    ensures
        size == kilobytes(size_on_disk),
{
    match size_on_disk {
        Some(bytes) => bytes / 1024,
        None => 0,
    }
}

} // verus!
