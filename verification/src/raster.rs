//! A decoded image held as plain values: its dimensions and its RGBA bytes.

use vstd::prelude::*;

verus! {

/// What a raster stands for: `width * height` pixels of four bytes each,
/// row after row.
pub struct RasterView {
    pub width: u32,
    pub height: u32,
    pub pixels: Seq<u8>,
}

impl RasterView {
    /// The buffer holds the pixels that the dimensions announce, and no more.
    pub open spec fn complete(self) -> bool {
        self.pixels.len() == rgba_len(self.width as int, self.height as int)
    }
}

/// The number of bytes that `width * height` RGBA pixels take.
pub open spec fn rgba_len(width: int, height: int) -> int {
    4 * width * height
}

/// An RGBA image with eight bits per channel.
///
/// The buffer always holds exactly the pixels that the dimensions announce.
#[derive(Debug)]
pub struct Raster {
    width: u32,
    height: u32,
    pixels: Vec<u8>,
}

impl View for Raster {
    type V = RasterView;

    closed spec fn view(&self) -> RasterView {
        RasterView { width: self.width, height: self.height, pixels: self.pixels@ }
    }
}

/// `4 * width * height`, which no pair of `u32` dimensions can push out of
/// a `u128`.
pub fn rgba_size(width: u32, height: u32) -> (size: u128)
    ensures
        size == rgba_len(width as int, height as int),
{
    assert(4 * width * height <= 4 * 0xffff_ffff * 0xffff_ffff) by (nonlinear_arith)
        requires
            0 <= width <= 0xffff_ffff,
            0 <= height <= 0xffff_ffff,
    ;
    4u128 * (width as u128) * (height as u128)
}

impl Raster {
    #[verifier::type_invariant]
    spec fn well_formed(self) -> bool {
        self.pixels@.len() == rgba_len(self.width as int, self.height as int)
    }

    /// Builds a raster from its parts; `None` exactly when the buffer does
    /// not hold `4 * width * height` bytes.
    pub fn new(width: u32, height: u32, pixels: Vec<u8>) -> (raster: Option<Raster>)
        ensures
            raster is Some <==> pixels@.len() == rgba_len(width as int, height as int),
            raster matches Some(r) ==> r@ == (RasterView { width, height, pixels: pixels@ }),
            raster matches Some(r) ==> r@.complete(),
    {
        if pixels.len() as u128 == rgba_size(width, height) {
            Some(Raster { width, height, pixels })
        } else {
            None
        }
    }

    pub fn width(&self) -> (width: u32)
        ensures
            width == self@.width,
    {
        self.width
    }

    pub fn height(&self) -> (height: u32)
        ensures
            height == self@.height,
    {
        self.height
    }

    /// The RGBA bytes, row after row.
    pub fn pixels(&self) -> (pixels: &Vec<u8>)
        ensures
            pixels@ == self@.pixels,
            self@.complete(),
    {
        proof {
            use_type_invariant(self);
        }
        &self.pixels
    }

    /// Takes the raster apart into width, height and bytes.
    pub fn into_parts(self) -> (parts: (u32, u32, Vec<u8>))
        ensures
            parts.0 == self@.width,
            parts.1 == self@.height,
            parts.2@ == self@.pixels,
            self@.complete(),
            parts.2@.len() <= usize::MAX,
    {
        proof {
            use_type_invariant(&self);
            assert(self.pixels.len() == self.pixels@.len());
        }
        (self.width, self.height, self.pixels)
    }
}

} // verus!
