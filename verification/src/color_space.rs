//! The `cs` parameter: the color space of the output image.

use vstd::prelude::*;
use vstd::string::*;

verus! {

/// The `cs` parameter specifies the color space of the output image.
#[derive(Clone, Copy, Debug)]
pub enum ImgixColorSpace {
    /// Sets the image to the sRGB color space, the Internet standard.
    SRGB,
    /// Sets the image to the Adobe RGB (1998) color space, which provides
    /// accurate color reproduction from screen to print.
    AdobeRGB1998,
    /// Saves on file size by reducing the color space metadata. May cause a
    /// slight shift in color values.
    TinySRGB,
    /// Completely removes color space metadata for maximum size reduction.
    Strip,
}

/// The fixed lowercase token of each color space.
pub open spec fn color_space_token(cs: ImgixColorSpace) -> Seq<char> {
    match cs {
        ImgixColorSpace::SRGB => "srgb"@,
        ImgixColorSpace::AdobeRGB1998 => "adobergb1998"@,
        ImgixColorSpace::TinySRGB => "tinysrgb"@,
        ImgixColorSpace::Strip => "strip"@,
    }
}

impl ImgixColorSpace {
    /// The exact lowercase token the service expects for this color space.
    pub fn to_string(&self) -> (r: String)
        ensures
            r@ == color_space_token(*self),
    {
        match self {
            ImgixColorSpace::SRGB => String::from_str("srgb"),
            ImgixColorSpace::AdobeRGB1998 => String::from_str("adobergb1998"),
            ImgixColorSpace::TinySRGB => String::from_str("tinysrgb"),
            ImgixColorSpace::Strip => String::from_str("strip"),
        }
    }
}

} // verus!
