//! The `ch` parameter: Client Hints flags.

use vstd::prelude::*;
use vstd::string::*;
use crate::text::{join_commas, joined, string_views};

verus! {

/// The `ch` URL parameter: opts specific images in to Client Hints, which
/// provide automatic resource selection using browser headers.
///
/// Begin constructing the parameter by calling `build()`; the returned
/// builder enables flags by chained setters and snapshots the value with
/// `finish()`. The serialized output always lists the active flags in the
/// declared order width, dpr, save-data, never in call order.
#[derive(Clone, Copy, Debug, Default)]
pub struct ImgixClientHints {
    /// Whether the browser's width hint overrides the `w` parameter.
    pub width: bool,
    /// Whether the browser's device pixel ratio hint overrides the `dpr`
    /// parameter.
    pub dpr: bool,
    /// Whether reduced data usage is requested: quality is lowered and the
    /// output format may change.
    pub save_data: bool,
}

/// The active flag tokens of a `ch` value, in declared order.
pub open spec fn client_hints_tokens(ch: ImgixClientHints) -> Seq<Seq<char>> {
    (if ch.width {
        seq!["width"@]
    } else {
        Seq::empty()
    }) + (if ch.dpr {
        seq!["dpr"@]
    } else {
        Seq::empty()
    }) + (if ch.save_data {
        seq!["save-data"@]
    } else {
        Seq::empty()
    })
}

/// A `ch` value with no flag enabled serializes to the empty string.
pub proof fn lemma_client_hints_no_flags_empty(ch: ImgixClientHints)
    requires
        !ch.width,
        !ch.dpr,
        !ch.save_data,
    ensures
        joined(client_hints_tokens(ch), ',') == Seq::<char>::empty(),
{
    assert(client_hints_tokens(ch) =~= Seq::<Seq<char>>::empty());
}

impl ImgixClientHints {
    /// Starts building the `ch` parameter with every flag off.
    pub fn build() -> (r: ImgixClientHintsBuilder)
        ensures
            !r.inner.width,
            !r.inner.dpr,
            !r.inner.save_data,
    {
        ImgixClientHintsBuilder {
            inner: ImgixClientHints { width: false, dpr: false, save_data: false },
        }
    }

    /// The active flag tokens in declared order, joined by commas; the
    /// empty string when no flag is enabled.
    pub fn to_string(&self) -> (r: String)
        ensures
            r@ == joined(client_hints_tokens(*self), ','),
    {
        let mut parts: Vec<String> = Vec::new();
        if self.width {
            parts.push(String::from_str("width"));
        }
        if self.dpr {
            parts.push(String::from_str("dpr"));
        }
        if self.save_data {
            parts.push(String::from_str("save-data"));
        }
        proof {
            assert(string_views(parts@) =~= client_hints_tokens(*self));
        }
        join_commas(&parts)
    }
}

/// Builder for specifying `ch` parameter options.
#[derive(Clone, Copy, Debug)]
pub struct ImgixClientHintsBuilder {
    /// The flags enabled so far.
    pub inner: ImgixClientHints,
}

impl ImgixClientHintsBuilder {
    /// Completes the construction of the `ch` parameter: a snapshot of the
    /// flags enabled so far.
    pub fn finish(&self) -> (r: ImgixClientHints)
        ensures
            r == self.inner,
    {
        self.inner
    }

    /// Lets the browser's width hint override the `w` parameter.
    pub fn width(self) -> (r: Self)
        ensures
            r.inner == (ImgixClientHints { width: true, ..self.inner }),
    {
        ImgixClientHintsBuilder { inner: ImgixClientHints { width: true, ..self.inner } }
    }

    /// Lets the browser's device pixel ratio hint override the `dpr`
    /// parameter.
    pub fn dpr(self) -> (r: Self)
        ensures
            r.inner == (ImgixClientHints { dpr: true, ..self.inner }),
    {
        ImgixClientHintsBuilder { inner: ImgixClientHints { dpr: true, ..self.inner } }
    }

    /// Requests reduced data usage: quality is lowered to `q=45` and the
    /// output format of the image may change.
    pub fn save_data(self) -> (r: Self)
        ensures
            r.inner == (ImgixClientHints { save_data: true, ..self.inner }),
    {
        ImgixClientHintsBuilder { inner: ImgixClientHints { save_data: true, ..self.inner } }
    }
}

} // verus!
