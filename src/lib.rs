//! Pixel-by-pixel comparison of two decoded raster images: a compatibility
//! check, a normalised difference ratio and a per-channel difference image.

pub mod pixel;
pub mod raster;
pub mod error;
pub mod validate;
pub mod ratio;
pub mod diff_image;
pub mod config;
pub mod compare;
