use vstd::prelude::*;

verus! {

/// The channel layout of a decoded image; every layout has 8-bit samples.
#[derive(Clone, Copy, Debug, PartialEq, Eq, Structural)]
pub enum ColorLayout {
    Gray8,
    GrayAlpha8,
    Rgb8,
    Rgba8,
    Bgr8,
    Bgra8,
}

/// The number of samples per pixel of a layout.
pub open spec fn channels_spec(layout: ColorLayout) -> nat {
    match layout {
        ColorLayout::Gray8 => 1,
        ColorLayout::GrayAlpha8 => 2,
        ColorLayout::Rgb8 => 3,
        ColorLayout::Rgba8 => 4,
        ColorLayout::Bgr8 => 3,
        ColorLayout::Bgra8 => 4,
    }
}

impl ColorLayout {
    /// The number of samples per pixel.
    pub fn channels(&self) -> (r: u8)
        ensures
            r as nat == channels_spec(*self),
    {
        match self {
            ColorLayout::Gray8 => 1,
            ColorLayout::GrayAlpha8 => 2,
            ColorLayout::Rgb8 => 3,
            ColorLayout::Rgba8 => 4,
            ColorLayout::Bgr8 => 3,
            ColorLayout::Bgra8 => 4,
        }
    }
}

/// A decoded image: its size, its layout and its samples in row-major,
/// channel-interleaved order.
#[derive(Clone, Debug)]
pub struct Image {
    pub width: u32,
    pub height: u32,
    pub layout: ColorLayout,
    pub data: Vec<u8>,
}

/// The number of samples an image of the given size and layout holds.
pub open spec fn sample_count(width: u32, height: u32, layout: ColorLayout) -> int {
    width as int * height as int * channels_spec(layout) as int
}

impl Image {
    /// The sample buffer holds exactly one sample per channel of each pixel.
    pub open spec fn wf(&self) -> bool {
        self.data@.len() == sample_count(self.width, self.height, self.layout)
    }

    /// Whether the sample buffer has the length the size and layout call for.
    pub fn is_well_formed(&self) -> (r: bool)
        ensures
            r == self.wf(),
    {
        let w = self.width as u128;
        let h = self.height as u128;
        let c = self.layout.channels() as u128;
        assert(w * h <= 0xffff_ffff * 0xffff_ffffu128) by (nonlinear_arith)
            requires w <= 0xffff_ffff, h <= 0xffff_ffff;
        assert(w * h * c <= 0xffff_ffff * 0xffff_ffffu128 * 4) by (nonlinear_arith)
            requires w * h <= 0xffff_ffff * 0xffff_ffffu128, c <= 4;
        self.data.len() as u128 == w * h * c
    }

    /// Builds an image from its parts; `None` when the buffer's length does
    /// not match the size and layout.
    pub fn new(width: u32, height: u32, layout: ColorLayout, data: Vec<u8>) -> (r: Option<Image>)
        ensures
            r.is_some() <==> data@.len() == sample_count(width, height, layout),
            r matches Some(img) ==> img.width == width && img.height == height
                && img.layout == layout && img.data@ == data@ && img.wf(),
    {
        let img = Image { width, height, layout, data };
        if img.is_well_formed() {
            Some(img)
        } else {
            None
        }
    }
}

} // verus!
