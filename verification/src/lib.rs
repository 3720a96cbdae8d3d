//! Batch conversion of raster images to WebP: the resize policy, the pixel
//! pipeline around the decoder and the resampler, the cancellation flag and
//! the per-item protocol that decides which notifications a batch sends.

pub mod batch;
pub mod cancel;
pub mod decode;
pub mod events;
pub mod item;
pub mod raster;
pub mod resample;
pub mod resize;
pub mod trace;
pub mod transcode;
