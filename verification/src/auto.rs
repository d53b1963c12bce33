//! The `auto` parameter: a fixed set of automatic-optimization flags.

use vstd::prelude::*;
use vstd::string::*;
use crate::text::{join_commas, joined, string_views};

verus! {

/// The `auto` URL parameter: a fixed set of boolean optimization flags.
/// Begin constructing the parameter by calling `build()`, enable flags by
/// the chained setters, and snapshot the value with `finish()`.
///
/// Enabling a flag is idempotent, and the serialized output always lists
/// the active flags in the declared order compress, enhance, format,
/// redeye, never in call order.
#[derive(Clone, Copy, Debug, Default)]
pub struct ImgixAuto {
    /// Whether best-effort size reduction is applied.
    pub compress: bool,
    /// Whether highlight, midtone and shadow adjustment is applied.
    pub enhance: bool,
    /// Whether automatic content negotiation picks the output format.
    pub format: bool,
    /// Whether red-eye removal is applied to detected faces.
    pub redeye: bool,
}

/// The active flag tokens of an `auto` value, in declared order.
pub open spec fn auto_tokens(a: ImgixAuto) -> Seq<Seq<char>> {
    (if a.compress {
        seq!["compress"@]
    } else {
        Seq::empty()
    }) + (if a.enhance {
        seq!["enhance"@]
    } else {
        Seq::empty()
    }) + (if a.format {
        seq!["format"@]
    } else {
        Seq::empty()
    }) + (if a.redeye {
        seq!["redeye"@]
    } else {
        Seq::empty()
    })
}

/// An `auto` value with no flag enabled serializes to the empty string.
pub proof fn lemma_auto_no_flags_empty(a: ImgixAuto)
    requires
        !a.compress,
        !a.enhance,
        !a.format,
        !a.redeye,
    ensures
        joined(auto_tokens(a), ',') == Seq::<char>::empty(),
{
    assert(auto_tokens(a) =~= Seq::<Seq<char>>::empty());
}

impl ImgixAuto {
    /// Starts building the `auto` parameter with every flag off.
    pub fn build() -> (r: Self)
        ensures
            !r.compress,
            !r.enhance,
            !r.format,
            !r.redeye,
    {
        ImgixAuto { compress: false, enhance: false, format: false, redeye: false }
    }

    /// Completes the construction of the `auto` parameter: a snapshot of
    /// the flags enabled so far.
    pub fn finish(&self) -> (r: Self)
        ensures
            r == *self,
    {
        *self
    }

    /// Enables best-effort techniques to reduce the size of the image.
    pub fn compress(self) -> (r: Self)
        ensures
            r == (ImgixAuto { compress: true, ..self }),
    {
        ImgixAuto { compress: true, ..self }
    }

    /// Enables adjustment using the distribution of highlights, midtones
    /// and shadows across the RGB channels.
    pub fn enhance(self) -> (r: Self)
        ensures
            r == (ImgixAuto { enhance: true, ..self }),
    {
        ImgixAuto { enhance: true, ..self }
    }

    /// Enables automatic content negotiation: the image may be served in a
    /// better output format.
    pub fn format(self) -> (r: Self)
        ensures
            r == (ImgixAuto { format: true, ..self }),
    {
        ImgixAuto { format: true, ..self }
    }

    /// Enables red-eye removal on any detected faces.
    pub fn redeye(self) -> (r: Self)
        ensures
            r == (ImgixAuto { redeye: true, ..self }),
    {
        ImgixAuto { redeye: true, ..self }
    }

    /// The active flag tokens in declared order, joined by commas; the
    /// empty string when no flag is enabled.
    pub fn to_string(&self) -> (r: String)
        ensures
            r@ == joined(auto_tokens(*self), ','),
    {
        let mut parts: Vec<String> = Vec::new();
        if self.compress {
            parts.push(String::from_str("compress"));
        }
        if self.enhance {
            parts.push(String::from_str("enhance"));
        }
        if self.format {
            parts.push(String::from_str("format"));
        }
        if self.redeye {
            parts.push(String::from_str("redeye"));
        }
        proof {
            assert(string_views(parts@) =~= auto_tokens(*self));
        }
        join_commas(&parts)
    }
}

} // verus!
