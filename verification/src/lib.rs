//! Typed builders for image-service URLs.
//!
//! The crate assembles a query-string URL out of typed parameter values:
//! enumerated options, flag sets, a sub-region rectangle, and plain
//! integers and strings. Every serialization step carries a contract that
//! pins the produced text down exactly.
//!
//! The URL builder does not prevent construction of URLs that the image
//! service itself would consider invalid; for example, it will not reject
//! the `ar` parameter when `fit=crop` is not set.

use vstd::prelude::*;
use vstd::string::*;

mod auto;
mod client_hints;
mod color_space;
mod crop;
mod fit;
mod query;
mod rect;
mod text;

pub use crate::auto::ImgixAuto;
pub use crate::client_hints::{ImgixClientHints, ImgixClientHintsBuilder};
pub use crate::color_space::ImgixColorSpace;
pub use crate::crop::ImgixCrop;
pub use crate::fit::ImgixFit;
pub use crate::rect::{Direction, ImgixRect, X, Y};
pub use crate::auto::{auto_tokens, lemma_auto_no_flags_empty};
pub use crate::client_hints::{client_hints_tokens, lemma_client_hints_no_flags_empty};
pub use crate::color_space::color_space_token;
pub use crate::crop::{crop_tokens, lemma_crop_no_flags_empty};
pub use crate::fit::fit_token;
pub use crate::query::{
    escape_char, escape_text, hex_char, lemma_duplicate_param_kept, lemma_escape_plain,
    lemma_query_empty, lemma_query_push, multibyte_escape, needs_escape, pair_text, pairs_view,
    percent_triple, query_text,
};
pub use crate::rect::{direction_text, rect_text, x_token, y_token};
pub use crate::text::{decimal, digit_char, digits, joined, lemma_joined_push, string_views};

use crate::query::render_query;
use crate::text::i32_decimal;

verus! {

/// A builder for image-service URLs. Begin constructing a new URL by
/// calling `build()`.
#[derive(Debug)]
pub struct ImgixUrl;

impl ImgixUrl {
    /// Starts building a URL on the given base, stored verbatim. Returns
    /// an `ImgixUrlBuilder` with an empty parameter list.
    pub fn build(url: &str) -> (r: ImgixUrlBuilder<'static>)
        ensures
            r.url@ == url@,
            r.params@.len() == 0,
    {
        ImgixUrlBuilder { params: Vec::new(), url: url.to_owned() }
    }
}

/// Builder for specifying URL parameters to add to the constructed URL.
///
/// Every setter appends a new (name, value) entry to the ordered parameter
/// list; nothing is deduplicated, so setting the same parameter twice
/// leaves both entries in the final query string, in call order.
#[derive(Debug)]
pub struct ImgixUrlBuilder<'a> {
    /// The ordered (name, value) parameter list accumulated so far.
    pub params: Vec<(&'a str, String)>,
    /// The base URL, stored verbatim, never parsed or normalized.
    pub url: String,
}

impl<'a> ImgixUrlBuilder<'a> {
    /// Completes the construction of the URL: the base URL, then `/?`,
    /// then the percent-encoded parameter pairs joined by `&`. The builder
    /// is only read, so further parameters may still be added and the URL
    /// finished again.
    pub fn finish(&self) -> (r: String)
        ensures
            r@ == self.url@ + seq!['/', '?'] + query_text(pairs_view(self.params@)),
    {
        let qs = render_query(&self.params);
        let mut out = self.url.clone();
        out.append("/?");
        out.append(qs.as_str());
        proof {
            reveal_strlit("/?");
            assert(out@ =~= self.url@ + seq!['/', '?'] + query_text(pairs_view(self.params@)));
        }
        out
    }

    /// Controls the output quality of lossy file formats. The documented
    /// valid range 0 - 100 is not enforced: any integer is passed through.
    pub fn q(self, val: i32) -> (r: Self)
        ensures
            r.url@ == self.url@,
            pairs_view(r.params@) == pairs_view(self.params@).push(("q"@, decimal(val as int))),
    {
        let ghost orig = self;
        let mut b = self;
        b.params.push(("q", i32_decimal(val)));
        proof {
            assert(pairs_view(b.params@) =~= pairs_view(orig.params@).push(
                ("q"@, decimal(val as int)),
            ));
        }
        b
    }

    /// The width of the output image in pixels.
    pub fn w(self, val: i32) -> (r: Self)
        ensures
            r.url@ == self.url@,
            pairs_view(r.params@) == pairs_view(self.params@).push(("w"@, decimal(val as int))),
    {
        let ghost orig = self;
        let mut b = self;
        b.params.push(("w", i32_decimal(val)));
        proof {
            assert(pairs_view(b.params@) =~= pairs_view(orig.params@).push(
                ("w"@, decimal(val as int)),
            ));
        }
        b
    }

    /// The height of the output image in pixels.
    pub fn h(self, val: i32) -> (r: Self)
        ensures
            r.url@ == self.url@,
            pairs_view(r.params@) == pairs_view(self.params@).push(("h"@, decimal(val as int))),
    {
        let ghost orig = self;
        let mut b = self;
        b.params.push(("h", i32_decimal(val)));
        proof {
            assert(pairs_view(b.params@) =~= pairs_view(orig.params@).push(
                ("h"@, decimal(val as int)),
            ));
        }
        b
    }

    /// Controls the output density of the image, so it can be served at
    /// the correct density for every user's device.
    pub fn dpr(self, val: i32) -> (r: Self)
        ensures
            r.url@ == self.url@,
            pairs_view(r.params@) == pairs_view(self.params@).push(("dpr"@, decimal(val as int))),
    {
        let ghost orig = self;
        let mut b = self;
        b.params.push(("dpr", i32_decimal(val)));
        proof {
            assert(pairs_view(b.params@) =~= pairs_view(orig.params@).push(
                ("dpr"@, decimal(val as int)),
            ));
        }
        b
    }

    /// Fills in any transparent areas of the image with the given color,
    /// stored verbatim with no color-format validation.
    pub fn bg(self, val: &str) -> (r: Self)
        ensures
            r.url@ == self.url@,
            pairs_view(r.params@) == pairs_view(self.params@).push(("bg"@, val@)),
    {
        let ghost orig = self;
        let mut b = self;
        b.params.push(("bg", val.to_owned()));
        proof {
            assert(pairs_view(b.params@) =~= pairs_view(orig.params@).push(("bg"@, val@)));
        }
        b
    }

    /// Applies a Gaussian style blur to the image, smoothing out image
    /// noise. The documented valid range 0 - 2000 is not enforced.
    pub fn blur(self, val: i32) -> (r: Self)
        ensures
            r.url@ == self.url@,
            pairs_view(r.params@) == pairs_view(self.params@).push(("blur"@, decimal(val as int))),
    {
        let ghost orig = self;
        let mut b = self;
        b.params.push(("blur", i32_decimal(val)));
        proof {
            assert(pairs_view(b.params@) =~= pairs_view(orig.params@).push(
                ("blur"@, decimal(val as int)),
            ));
        }
        b
    }

    /// Selects a face on which to center the image when `fit=facearea`.
    pub fn faceindex(self, val: i32) -> (r: Self)
        ensures
            r.url@ == self.url@,
            pairs_view(r.params@) == pairs_view(self.params@).push(
                ("faceindex"@, decimal(val as int)),
            ),
    {
        let ghost orig = self;
        let mut b = self;
        b.params.push(("faceindex", i32_decimal(val)));
        proof {
            assert(pairs_view(b.params@) =~= pairs_view(orig.params@).push(
                ("faceindex"@, decimal(val as int)),
            ));
        }
        b
    }

    /// Defines how much padding to allow for each face when
    /// `fit=facearea`.
    pub fn facepad(self, val: i32) -> (r: Self)
        ensures
            r.url@ == self.url@,
            pairs_view(r.params@) == pairs_view(self.params@).push(
                ("facepad"@, decimal(val as int)),
            ),
    {
        let ghost orig = self;
        let mut b = self;
        b.params.push(("facepad", i32_decimal(val)));
        proof {
            assert(pairs_view(b.params@) =~= pairs_view(orig.params@).push(
                ("facepad"@, decimal(val as int)),
            ));
        }
        b
    }

    /// Resizes and crops the original image to match the given aspect
    /// ratio, serialized as `w:h`. Works only when `fit=crop` is set,
    /// which this builder does not check.
    pub fn ar(self, w: i32, h: i32) -> (r: Self)
        ensures
            r.url@ == self.url@,
            pairs_view(r.params@) == pairs_view(self.params@).push(
                ("ar"@, decimal(w as int) + seq![':'] + decimal(h as int)),
            ),
    {
        let ghost orig = self;
        let mut b = self;
        let mut v = i32_decimal(w);
        v.append(":");
        let hs = i32_decimal(h);
        v.append(hs.as_str());
        proof {
            reveal_strlit(":");
            assert(v@ =~= decimal(w as int) + seq![':'] + decimal(h as int));
        }
        b.params.push(("ar", v));
        proof {
            assert(pairs_view(b.params@) =~= pairs_view(orig.params@).push(
                ("ar"@, decimal(w as int) + seq![':'] + decimal(h as int)),
            ));
        }
        b
    }

    /// Adds the `auto` parameter: a baseline level of automatic
    /// optimization, rendered as its active flags in declared order.
    pub fn auto(self, auto: ImgixAuto) -> (r: Self)
        ensures
            r.url@ == self.url@,
            pairs_view(r.params@) == pairs_view(self.params@).push(
                ("auto"@, joined(auto_tokens(auto), ',')),
            ),
    {
        let ghost orig = self;
        let mut b = self;
        b.params.push(("auto", auto.to_string()));
        proof {
            assert(pairs_view(b.params@) =~= pairs_view(orig.params@).push(
                ("auto"@, joined(auto_tokens(auto), ',')),
            ));
        }
        b
    }

    /// Adds the `rect` parameter: a sub-region of the source image to use
    /// for processing before other resize operations are applied.
    pub fn rect(self, rect: ImgixRect) -> (r: Self)
        ensures
            r.url@ == self.url@,
            pairs_view(r.params@) == pairs_view(self.params@).push(("rect"@, rect_text(rect))),
    {
        let ghost orig = self;
        let mut b = self;
        b.params.push(("rect", rect.to_string()));
        proof {
            assert(pairs_view(b.params@) =~= pairs_view(orig.params@).push(
                ("rect"@, rect_text(rect)),
            ));
        }
        b
    }

    /// Adds the `fit` parameter: how the output image is fit to its target
    /// dimensions after resizing.
    pub fn fit(self, fit: ImgixFit) -> (r: Self)
        ensures
            r.url@ == self.url@,
            pairs_view(r.params@) == pairs_view(self.params@).push(("fit"@, fit_token(fit))),
    {
        let ghost orig = self;
        let mut b = self;
        b.params.push(("fit", fit.to_string()));
        proof {
            assert(pairs_view(b.params@) =~= pairs_view(orig.params@).push(
                ("fit"@, fit_token(fit)),
            ));
        }
        b
    }

    /// Adds the `crop` parameter: how the image is aligned when `fit=crop`
    /// is set, rendered as its active flags in declared order.
    pub fn crop(self, crop: ImgixCrop) -> (r: Self)
        ensures
            r.url@ == self.url@,
            pairs_view(r.params@) == pairs_view(self.params@).push(
                ("crop"@, joined(crop_tokens(crop), ',')),
            ),
    {
        let ghost orig = self;
        let mut b = self;
        b.params.push(("crop", crop.to_string()));
        proof {
            assert(pairs_view(b.params@) =~= pairs_view(orig.params@).push(
                ("crop"@, joined(crop_tokens(crop), ',')),
            ));
        }
        b
    }

    /// Adds the `cs` parameter: the color space of the output image.
    pub fn cs(self, cs: ImgixColorSpace) -> (r: Self)
        ensures
            r.url@ == self.url@,
            pairs_view(r.params@) == pairs_view(self.params@).push(
                ("cs"@, color_space_token(cs)),
            ),
    {
        let ghost orig = self;
        let mut b = self;
        b.params.push(("cs", cs.to_string()));
        proof {
            assert(pairs_view(b.params@) =~= pairs_view(orig.params@).push(
                ("cs"@, color_space_token(cs)),
            ));
        }
        b
    }

    /// Adds the `ch` parameter: the Client Hints the image opts in to,
    /// rendered as its active flags in declared order.
    pub fn ch(self, ch: ImgixClientHints) -> (r: Self)
        ensures
            r.url@ == self.url@,
            pairs_view(r.params@) == pairs_view(self.params@).push(
                ("ch"@, joined(client_hints_tokens(ch), ',')),
            ),
    {
        let ghost orig = self;
        let mut b = self;
        b.params.push(("ch", ch.to_string()));
        proof {
            assert(pairs_view(b.params@) =~= pairs_view(orig.params@).push(
                ("ch"@, joined(client_hints_tokens(ch), ',')),
            ));
        }
        b
    }
}

} // verus!
