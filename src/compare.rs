use vstd::prelude::*;
use crate::config::Config;
use crate::diff_image::{create_diff_image, diff_samples, diff_supported};
use crate::error::DiffError;
use crate::ratio::{calculate_diff_ratio, ratio_denominator, ratio_numerator, DiffRatio, MAX_SAMPLES};
use crate::raster::Image;
use crate::validate::{compatible, validate_image_compatibility};

verus! {

/// What a successful comparison yields.
#[derive(Clone, Debug)]
pub enum Comparison {
    /// The difference ratio, when no output path was given.
    Ratio(DiffRatio),
    /// The difference image to be written to the output path.
    DiffImage(Image),
}

/// Compares two loaded images as the configuration asks: validates them,
/// then builds the difference image when an output path is given and the
/// difference ratio otherwise.
pub fn compare(config: &Config, image1: &Image, image2: &Image) -> (r: Result<Comparison, DiffError>)
    requires
        image1.wf(),
        image2.wf(),
        image1.data@.len() <= MAX_SAMPLES,
    ensures
        (image1.width != image2.width || image1.height != image2.height)
            ==> r == Err::<Comparison, DiffError>(DiffError::DimensionMismatch),
        (image1.width == image2.width && image1.height == image2.height
            && image1.layout != image2.layout)
            ==> r == Err::<Comparison, DiffError>(DiffError::ColorModeMismatch),
        compatible(*image1, *image2) && config.filename is None ==> (r matches Ok(Comparison::Ratio(q))
            && q.diff_sum == ratio_numerator(image1.data@, image2.data@)
            && q.total_possible == ratio_denominator(image1.data@)),
        compatible(*image1, *image2) && config.filename is Some && !diff_supported(image1.layout)
            ==> r == Err::<Comparison, DiffError>(DiffError::UnsupportedColorMode(image1.layout)),
        compatible(*image1, *image2) && config.filename is Some && diff_supported(image1.layout)
            ==> (r matches Ok(Comparison::DiffImage(d))
            && d.width == image1.width && d.height == image1.height && d.layout == image1.layout
            && d.wf() && d.data@ == diff_samples(image1.data@, image2.data@)),
{
    match validate_image_compatibility(image1, image2) {
        Ok(()) => {},
        Err(e) => {
            return Err(e);
        },
    }
    match config.filename {
        Some(_) => match create_diff_image(image1, image2) {
            Ok(d) => Ok(Comparison::DiffImage(d)),
            Err(e) => Err(e),
        },
        None => Ok(Comparison::Ratio(calculate_diff_ratio(image1, image2))),
    }
}

} // verus!
