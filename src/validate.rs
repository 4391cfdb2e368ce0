use vstd::prelude::*;
use crate::error::DiffError;
use crate::raster::Image;

verus! {

/// Two images can be compared when they have the same size and layout.
pub open spec fn compatible(image1: Image, image2: Image) -> bool {
    &&& image1.width == image2.width
    &&& image1.height == image2.height
    &&& image1.layout == image2.layout
}

/// Checks that two images share their size and then their layout; the first
/// condition that fails gives the error.
pub fn validate_image_compatibility(image1: &Image, image2: &Image) -> (r: Result<(), DiffError>)
    ensures
        r is Ok <==> compatible(*image1, *image2),
        (image1.width != image2.width || image1.height != image2.height)
            ==> r == Err::<(), DiffError>(DiffError::DimensionMismatch),
        (image1.width == image2.width && image1.height == image2.height
            && image1.layout != image2.layout)
            ==> r == Err::<(), DiffError>(DiffError::ColorModeMismatch),
{
    if image1.width != image2.width || image1.height != image2.height {
        return Err(DiffError::DimensionMismatch);
    }
    if image1.layout != image2.layout {
        return Err(DiffError::ColorModeMismatch);
    }
    Ok(())
}

} // verus!
