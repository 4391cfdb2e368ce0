use vstd::prelude::*;
use crate::raster::ColorLayout;

verus! {

/// Every way a comparison can fail.
#[derive(Clone, Debug, PartialEq, Eq)]
pub enum DiffError {
    /// An input path does not exist; holds the path.
    PathNotFound(String),
    /// An input file could not be decoded; holds the path and the cause.
    DecodeError(String, String),
    /// The two images differ in width or height.
    DimensionMismatch,
    /// The two images differ in channel layout.
    ColorModeMismatch,
    /// A difference image was asked for on a layout other than RGB or RGBA.
    UnsupportedColorMode(ColorLayout),
    /// The difference image could not be written; holds the cause.
    WriteError(String),
}

} // verus!
