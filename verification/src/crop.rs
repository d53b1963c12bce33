//! The `crop` parameter: alignment flags for `fit=crop`.

use vstd::prelude::*;
use vstd::string::*;
use crate::text::{join_commas, joined, string_views};

verus! {

/// The `crop` URL parameter: crop mode controls how the image is aligned
/// when `fit=crop` is set. The `w` and `h` parameters should also be set,
/// so that the crop behavior is defined within specific image dimensions.
///
/// Begin constructing the parameter by calling `build()`, enable flags by
/// the chained setters, and snapshot the value with `finish()`. Enabling a
/// flag is idempotent, and the serialized output always lists the active
/// flags in the declared order top, bottom, left, right, faces,
/// focalpoint, edges, entropy, never in call order.
#[derive(Clone, Copy, Debug, Default)]
pub struct ImgixCrop {
    /// Crop from the top of the image, down.
    pub top: bool,
    /// Crop from the bottom of the image, up.
    pub bottom: bool,
    /// Crop from the left of the image, right.
    pub left: bool,
    /// Crop from the right of the image, left.
    pub right: bool,
    /// Center the crop on detected faces.
    pub faces: bool,
    /// Accept the focal point parameters.
    pub focalpoint: bool,
    /// Crop to an area of interest found by edge detection.
    pub edges: bool,
    /// Crop to an area of interest found by looking for busy sections.
    pub entropy: bool,
}

/// The active flag tokens of a `crop` value, in declared order.
pub open spec fn crop_tokens(c: ImgixCrop) -> Seq<Seq<char>> {
    (if c.top {
        seq!["top"@]
    } else {
        Seq::empty()
    }) + (if c.bottom {
        seq!["bottom"@]
    } else {
        Seq::empty()
    }) + (if c.left {
        seq!["left"@]
    } else {
        Seq::empty()
    }) + (if c.right {
        seq!["right"@]
    } else {
        Seq::empty()
    }) + (if c.faces {
        seq!["faces"@]
    } else {
        Seq::empty()
    }) + (if c.focalpoint {
        seq!["focalpoint"@]
    } else {
        Seq::empty()
    }) + (if c.edges {
        seq!["edges"@]
    } else {
        Seq::empty()
    }) + (if c.entropy {
        seq!["entropy"@]
    } else {
        Seq::empty()
    })
}

/// A `crop` value with no flag enabled serializes to the empty string.
pub proof fn lemma_crop_no_flags_empty(c: ImgixCrop)
    requires
        !c.top,
        !c.bottom,
        !c.left,
        !c.right,
        !c.faces,
        !c.focalpoint,
        !c.edges,
        !c.entropy,
    ensures
        joined(crop_tokens(c), ',') == Seq::<char>::empty(),
{
    assert(crop_tokens(c) =~= Seq::<Seq<char>>::empty());
}

impl ImgixCrop {
    /// Starts building the `crop` parameter with every flag off.
    pub fn build() -> (r: Self)
        ensures
            !r.top,
            !r.bottom,
            !r.left,
            !r.right,
            !r.faces,
            !r.focalpoint,
            !r.edges,
            !r.entropy,
    {
        ImgixCrop {
            top: false,
            bottom: false,
            left: false,
            right: false,
            faces: false,
            focalpoint: false,
            edges: false,
            entropy: false,
        }
    }

    /// Completes the construction of the `crop` parameter: a snapshot of
    /// the flags enabled so far.
    pub fn finish(&self) -> (r: Self)
        ensures
            r == *self,
    {
        *self
    }

    /// Crop from the top of the image, down.
    pub fn top(self) -> (r: Self)
        ensures
            r == (ImgixCrop { top: true, ..self }),
    {
        ImgixCrop { top: true, ..self }
    }

    /// Crop from the bottom of the image, up.
    pub fn bottom(self) -> (r: Self)
        ensures
            r == (ImgixCrop { bottom: true, ..self }),
    {
        ImgixCrop { bottom: true, ..self }
    }

    /// Crop from the left of the image, right.
    pub fn left(self) -> (r: Self)
        ensures
            r == (ImgixCrop { left: true, ..self }),
    {
        ImgixCrop { left: true, ..self }
    }

    /// Crop from the right of the image, left.
    pub fn right(self) -> (r: Self)
        ensures
            r == (ImgixCrop { right: true, ..self }),
    {
        ImgixCrop { right: true, ..self }
    }

    /// If faces are detected in the image, attempts to center the crop to
    /// them; otherwise defaults to centered if no other values are given.
    pub fn faces(self) -> (r: Self)
        ensures
            r == (ImgixCrop { faces: true, ..self }),
    {
        ImgixCrop { faces: true, ..self }
    }

    /// Designates that the URL can accept the focal point parameters.
    pub fn focalpoint(self) -> (r: Self)
        ensures
            r == (ImgixCrop { focalpoint: true, ..self }),
    {
        ImgixCrop { focalpoint: true, ..self }
    }

    /// Automatically finds and crops to an area of interest by performing
    /// edge detection, looking for objects in the image.
    pub fn edges(self) -> (r: Self)
        ensures
            r == (ImgixCrop { edges: true, ..self }),
    {
        ImgixCrop { edges: true, ..self }
    }

    /// Automatically finds and crops to an area of interest by looking for
    /// busy sections of the image.
    pub fn entropy(self) -> (r: Self)
        ensures
            r == (ImgixCrop { entropy: true, ..self }),
    {
        ImgixCrop { entropy: true, ..self }
    }

    /// The active flag tokens in declared order, joined by commas; the
    /// empty string when no flag is enabled.
    #[verifier::rlimit(50)]
    pub fn to_string(&self) -> (r: String)
        ensures
            r@ == joined(crop_tokens(*self), ','),
    {
        let mut parts: Vec<String> = Vec::new();
        let ghost mut expect: Seq<Seq<char>> = Seq::empty();
        if self.top {
            parts.push(String::from_str("top"));
        }
        proof {
            expect = expect + (if self.top { seq!["top"@] } else { Seq::empty() });
            assert(string_views(parts@) =~= expect);
        }
        if self.bottom {
            parts.push(String::from_str("bottom"));
        }
        proof {
            expect = expect + (if self.bottom { seq!["bottom"@] } else { Seq::empty() });
            assert(string_views(parts@) =~= expect);
        }
        if self.left {
            parts.push(String::from_str("left"));
        }
        proof {
            expect = expect + (if self.left { seq!["left"@] } else { Seq::empty() });
            assert(string_views(parts@) =~= expect);
        }
        if self.right {
            parts.push(String::from_str("right"));
        }
        proof {
            expect = expect + (if self.right { seq!["right"@] } else { Seq::empty() });
            assert(string_views(parts@) =~= expect);
        }
        if self.faces {
            parts.push(String::from_str("faces"));
        }
        proof {
            expect = expect + (if self.faces { seq!["faces"@] } else { Seq::empty() });
            assert(string_views(parts@) =~= expect);
        }
        if self.focalpoint {
            parts.push(String::from_str("focalpoint"));
        }
        proof {
            expect = expect + (if self.focalpoint { seq!["focalpoint"@] } else { Seq::empty() });
            assert(string_views(parts@) =~= expect);
        }
        if self.edges {
            parts.push(String::from_str("edges"));
        }
        proof {
            expect = expect + (if self.edges { seq!["edges"@] } else { Seq::empty() });
            assert(string_views(parts@) =~= expect);
        }
        if self.entropy {
            parts.push(String::from_str("entropy"));
        }
        proof {
            expect = expect + (if self.entropy { seq!["entropy"@] } else { Seq::empty() });
            assert(string_views(parts@) =~= expect);
            assert(expect =~= crop_tokens(*self));
        }
        join_commas(&parts)
    }
}

} // verus!
