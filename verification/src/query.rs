//! Query-string rendering: the exact shape of the percent-encoded
//! `name=value` pairs that the URL builder appends to the base URL.

use vstd::prelude::*;
use crate::text::joined;

verus! {

/// The uppercase hexadecimal digit for a value below sixteen.
pub open spec fn hex_char(d: int) -> char {
    if d == 0 {
        '0'
    } else if d == 1 {
        '1'
    } else if d == 2 {
        '2'
    } else if d == 3 {
        '3'
    } else if d == 4 {
        '4'
    } else if d == 5 {
        '5'
    } else if d == 6 {
        '6'
    } else if d == 7 {
        '7'
    } else if d == 8 {
        '8'
    } else if d == 9 {
        '9'
    } else if d == 10 {
        'A'
    } else if d == 11 {
        'B'
    } else if d == 12 {
        'C'
    } else if d == 13 {
        'D'
    } else if d == 14 {
        'E'
    } else {
        'F'
    }
}

/// Whether the query encoding escapes this ASCII character: the C0
/// controls and DEL, the space, and the characters `"`, `<`, `>`, `` ` ``,
/// `&`, `?`, `=`.
pub open spec fn needs_escape(c: char) -> bool {
    (c as int) < 0x20 || (c as int) == 0x7f || c == ' ' || c == '"' || c == '<' || c == '>'
        || c == '`' || c == '&' || c == '?' || c == '='
}

/// The uppercase percent triple of one byte value.
pub open spec fn percent_triple(b: int) -> Seq<char> {
    seq!['%', hex_char(b / 16), hex_char(b % 16)]
}

/// What the query encoding makes of one character beyond ASCII: each byte
/// of its UTF-8 encoding as an uppercase percent triple.
pub open spec fn multibyte_escape(c: char) -> Seq<char> {
    let n = c as int;
    if n < 0x800 {
        percent_triple(0xC0 + n / 0x40) + percent_triple(0x80 + n % 0x40)
    } else if n < 0x10000 {
        percent_triple(0xE0 + n / 0x1000) + percent_triple(0x80 + (n / 0x40) % 0x40)
            + percent_triple(0x80 + n % 0x40)
    } else {
        percent_triple(0xF0 + n / 0x40000) + percent_triple(0x80 + (n / 0x1000) % 0x40)
            + percent_triple(0x80 + (n / 0x40) % 0x40) + percent_triple(0x80 + n % 0x40)
    }
}

/// What the query encoding makes of one character.
pub open spec fn escape_char(c: char) -> Seq<char> {
    if (c as int) >= 0x80 {
        multibyte_escape(c)
    } else if needs_escape(c) {
        percent_triple(c as int)
    } else {
        seq![c]
    }
}

/// What the query encoding makes of a text: each character in turn.
pub open spec fn escape_text(s: Seq<char>) -> Seq<char>
    decreases s.len(),
{
    if s.len() == 0 {
        Seq::empty()
    } else {
        escape_char(s[0]) + escape_text(s.drop_first())
    }
}

/// The rendered form of one parameter: encoded name, `=`, encoded value.
pub open spec fn pair_text(name: Seq<char>, value: Seq<char>) -> Seq<char> {
    escape_text(name) + seq!['='] + escape_text(value)
}

/// The rendered query string of an ordered parameter list: the rendered
/// pairs joined by `&`.
pub open spec fn query_text(pairs: Seq<(Seq<char>, Seq<char>)>) -> Seq<char> {
    joined(pairs.map(|i: int, p: (Seq<char>, Seq<char>)| pair_text(p.0, p.1)), '&')
}

/// The views of an ordered list of (name, value) parameters.
pub open spec fn pairs_view(params: Seq<(&str, String)>) -> Seq<(Seq<char>, Seq<char>)> {
    params.map(|i: int, p: (&str, String)| (p.0@, p.1@))
}

/// A text whose characters the query encoding keeps as they are passes
/// through unchanged.
pub proof fn lemma_escape_plain(s: Seq<char>)
    requires
        forall|i: int| 0 <= i < s.len() ==> (s[i] as int) < 0x80 && !needs_escape(#[trigger] s[i]),
    ensures
        escape_text(s) == s,
    decreases s.len(),
{
    if s.len() == 0 {
        assert(escape_text(s) =~= s);
    } else {
        lemma_escape_plain(s.drop_first());
        assert(escape_text(s) =~= s);
    }
}

/// A URL finished with no parameters set carries the empty query string:
/// the produced URL is the base URL followed by `/?` alone.
pub proof fn lemma_query_empty(pairs: Seq<(Seq<char>, Seq<char>)>)
    requires
        pairs.len() == 0,
    ensures
        query_text(pairs) == Seq::<char>::empty(),
{
    assert(pairs.map(|i: int, p: (Seq<char>, Seq<char>)| pair_text(p.0, p.1)).len() == 0);
}

/// Appending one parameter extends the rendered query by `&` and that
/// parameter's rendered pair (or is the pair alone when the list was
/// empty).
pub proof fn lemma_query_push(pairs: Seq<(Seq<char>, Seq<char>)>, p: (Seq<char>, Seq<char>))
    ensures
        query_text(pairs.push(p)) == if pairs.len() == 0 {
            pair_text(p.0, p.1)
        } else {
            query_text(pairs) + seq!['&'] + pair_text(p.0, p.1)
        },
{
    let render = |i: int, q: (Seq<char>, Seq<char>)| pair_text(q.0, q.1);
    assert(pairs.push(p).map(render) =~= pairs.map(render).push(pair_text(p.0, p.1)));
    crate::text::lemma_joined_push(pairs.map(render), pair_text(p.0, p.1), '&');
}

/// Setting the same parameter twice keeps both entries: the rendered query
/// holds the parameter once with each value, in call order, with nothing
/// deduplicated or overwritten.
pub proof fn lemma_duplicate_param_kept(
    pairs: Seq<(Seq<char>, Seq<char>)>,
    name: Seq<char>,
    v1: Seq<char>,
    v2: Seq<char>,
)
    ensures
        query_text(pairs.push((name, v1)).push((name, v2))) == query_text(pairs.push((name, v1)))
            + seq!['&'] + pair_text(name, v2),
{
    lemma_query_push(pairs.push((name, v1)), (name, v2));
}

/// Relies on `qstring::QString::new` and `QString`'s `Display`
/// implementation: the pairs are rendered in order as `name=value` joined
/// by `&`, with each name and value percent-encoded. The encoding turns
/// the C0 controls, DEL, space, `"`, `<`, `>`, `` ` ``, `&`, `?`, `=`, and
/// every byte beyond ASCII into an uppercase `%XX` triple and keeps every
/// other character.
#[verifier::external_body]
pub(crate) fn render_query(params: &Vec<(&str, String)>) -> (r: String)
    ensures
        r@ == query_text(pairs_view(params@)),
{
    qstring::QString::new(params.clone()).to_string()
}

} // verus!
