//! The `fit` parameter: how the output image is fit to its target
//! dimensions after resizing.

use vstd::prelude::*;
use vstd::string::*;

verus! {

/// The `fit` parameter controls how the output image is fit to its target
/// dimensions after resizing, and how any background areas will be filled.
#[derive(Clone, Copy, Debug)]
pub enum ImgixFit {
    /// Resizes the image to fit within the width and height dimensions
    /// without cropping or distorting the image; the remaining space is
    /// filled with extended pixels from the edge of the image.
    Clamp,
    /// **Default**. Resizes the image to fit within the width and height
    /// boundaries without cropping or distorting the image.
    Clip,
    /// Resizes the image to fill the width and height dimensions and crops
    /// any excess image data.
    Crop,
    /// Finds the area containing all faces, or a specific face, and scales
    /// it to the specified width and height dimensions.
    FaceArea,
    /// Resizes the image to fit within the requested width and height
    /// dimensions while preserving the original aspect ratio, filling any
    /// remaining area.
    Fill,
    /// Like `Fill`, but scales the image up to fill the full dimensions if
    /// it is smaller than the requested size.
    FillMax,
    /// Resizes the image to fit within the width and height dimensions
    /// without cropping or distorting the image, but will not increase the
    /// size of the image beyond its original dimensions.
    Max,
    /// Resizes and crops the image to match the aspect ratio of the
    /// requested width and height, without exceeding the original size.
    Min,
    /// Scales the image to fit the constraining dimensions exactly.
    Scale,
}

/// The fixed lowercase token of each fit mode.
pub open spec fn fit_token(fit: ImgixFit) -> Seq<char> {
    match fit {
        ImgixFit::Clamp => "clamp"@,
        ImgixFit::Clip => "clip"@,
        ImgixFit::Crop => "crop"@,
        ImgixFit::FaceArea => "facearea"@,
        ImgixFit::Fill => "fill"@,
        ImgixFit::FillMax => "fillmax"@,
        ImgixFit::Max => "max"@,
        ImgixFit::Min => "min"@,
        ImgixFit::Scale => "scale"@,
    }
}

impl ImgixFit {
    /// The exact lowercase token the service expects for this fit mode.
    pub fn to_string(&self) -> (r: String)
        ensures
            r@ == fit_token(*self),
    {
        match self {
            ImgixFit::Clamp => String::from_str("clamp"),
            ImgixFit::Clip => String::from_str("clip"),
            ImgixFit::Crop => String::from_str("crop"),
            ImgixFit::FaceArea => String::from_str("facearea"),
            ImgixFit::Fill => String::from_str("fill"),
            ImgixFit::FillMax => String::from_str("fillmax"),
            ImgixFit::Max => String::from_str("max"),
            ImgixFit::Min => String::from_str("min"),
            ImgixFit::Scale => String::from_str("scale"),
        }
    }
}

} // verus!
