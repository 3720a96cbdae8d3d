//! What a batch is made of: the images to convert and the parameters they
//! are converted with.

use vstd::prelude::*;
use crate::resize::Resize;

verus! {

/// One image of a batch, as the caller describes it.
#[derive(Clone, Debug)]
pub struct Image {
    /// Where the source file is. It identifies the item in notifications.
    pub full_path: String,
    /// The file's name, with or without an extension.
    pub filename: String,
    pub extension: String,
    /// The directory that holds the source file.
    pub path: String,
    /// The size of the source file in bytes.
    pub original_size: u32,
    /// The size of the converted file; 0 until the caller records it.
    pub webp_size: u32,
    /// Whether the caller has seen the item's outcome.
    pub processed: bool,
}

pub struct ImageView {
    pub full_path: Seq<char>,
    pub filename: Seq<char>,
    pub extension: Seq<char>,
    pub path: Seq<char>,
    pub original_size: u32,
    pub webp_size: u32,
    pub processed: bool,
}

impl View for Image {
    type V = ImageView;

    open spec fn view(&self) -> ImageView {
        ImageView {
            full_path: self.full_path@,
            filename: self.filename@,
            extension: self.extension@,
            path: self.path@,
            original_size: self.original_size,
            webp_size: self.webp_size,
            processed: self.processed,
        }
    }
}

impl Image {
    /// Describes an image that has not been converted yet.
    pub fn new(full_path: String, filename: String, extension: String, path: String, original_size: u32) -> (image: Image)
        ensures
            image@ == (ImageView {
                full_path: full_path@,
                filename: filename@,
                extension: extension@,
                path: path@,
                original_size,
                webp_size: 0,
                processed: false,
            }),
    {
        Image { full_path, filename, extension, path, original_size, webp_size: 0, processed: false }
    }
}

/// The settings that every item of a batch is converted with.
#[derive(Clone, Debug)]
pub struct Parameters {
    pub is_lossless: bool,
    /// Meant to lie between 0 and 100; handed to the encoder as it is.
    pub quality: u32,
    pub resize: Resize,
    /// The target dimension in pixels.
    pub resize_to: u32,
    pub is_enlarging_allowed: bool,
    /// Where the converted files go; empty for "beside each source file".
    pub save_folder: String,
}

pub struct ParametersView {
    pub is_lossless: bool,
    pub quality: u32,
    pub resize: Resize,
    pub resize_to: u32,
    pub is_enlarging_allowed: bool,
    pub save_folder: Seq<char>,
}

impl View for Parameters {
    type V = ParametersView;

    open spec fn view(&self) -> ParametersView {
        ParametersView {
            is_lossless: self.is_lossless,
            quality: self.quality,
            resize: self.resize,
            resize_to: self.resize_to,
            is_enlarging_allowed: self.is_enlarging_allowed,
            save_folder: self.save_folder@,
        }
    }
}

} // verus!
