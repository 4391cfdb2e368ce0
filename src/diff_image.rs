use vstd::prelude::*;
use crate::error::DiffError;
use crate::pixel::{abs_diff, abs_diff_spec};
use crate::raster::{ColorLayout, Image};
use crate::validate::{compatible, validate_image_compatibility};

verus! {

/// The layouts a difference image can be made in.
pub open spec fn diff_supported(layout: ColorLayout) -> bool {
    layout == ColorLayout::Rgb8 || layout == ColorLayout::Rgba8
}

/// The sample-wise absolute difference of two buffers of one length.
pub open spec fn diff_samples(a: Seq<u8>, b: Seq<u8>) -> Seq<u8> {
    Seq::new(a.len(), |i: int| abs_diff_spec(a[i], b[i]) as u8)
}

/// The difference of a buffer with itself is all zero.
pub proof fn lemma_diff_of_identical(a: Seq<u8>)
    ensures
        diff_samples(a, a).len() == a.len(),
        forall|i: int| 0 <= i < a.len() ==> #[trigger] diff_samples(a, a)[i] == 0,
{
}

/// Builds the image whose every sample is the absolute difference of the
/// matching samples of the two sources, in the first source's size and layout.
/// Only RGB and RGBA images are supported, which is checked before anything
/// else; then the two images must share size and layout.
pub fn create_diff_image(image1: &Image, image2: &Image) -> (r: Result<Image, DiffError>)
    requires
        image1.wf(),
        image2.wf(),
    ensures
        !diff_supported(image1.layout)
            ==> r == Err::<Image, DiffError>(DiffError::UnsupportedColorMode(image1.layout)),
        diff_supported(image1.layout) && (image1.width != image2.width || image1.height != image2.height)
            ==> r == Err::<Image, DiffError>(DiffError::DimensionMismatch),
        diff_supported(image1.layout) && image1.width == image2.width
            && image1.height == image2.height && image1.layout != image2.layout
            ==> r == Err::<Image, DiffError>(DiffError::ColorModeMismatch),
        r is Ok <==> diff_supported(image1.layout) && compatible(*image1, *image2),
        r matches Ok(d) ==> d.width == image1.width && d.height == image1.height
            && d.layout == image1.layout && d.wf()
            && d.data@ == diff_samples(image1.data@, image2.data@),
{
    match image1.layout {
        ColorLayout::Rgb8 => {},
        ColorLayout::Rgba8 => {},
        _ => {
            return Err(DiffError::UnsupportedColorMode(image1.layout));
        },
    }
    match validate_image_compatibility(image1, image2) {
        Ok(()) => {},
        Err(e) => {
            return Err(e);
        },
    }
    let n = image1.data.len();
    let mut data: Vec<u8> = Vec::with_capacity(n);
    let mut i: usize = 0;
    while i < n
        invariant
            n == image1.data@.len(),
            n == image2.data@.len(),
            i <= n,
            data@.len() == i,
            forall|k: int| 0 <= k < i ==> #[trigger] data@[k] == abs_diff_spec(image1.data@[k], image2.data@[k]) as u8,
        decreases n - i,
    {
        data.push(abs_diff(image1.data[i], image2.data[i]));
        i = i + 1;
    }
    assert(data@ =~= diff_samples(image1.data@, image2.data@));
    Ok(Image { width: image1.width, height: image1.height, layout: image1.layout, data })
}

} // verus!
