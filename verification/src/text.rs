//! Plain-text building blocks: decimal rendering of integers and
//! separator-joined token lists.

use vstd::prelude::*;
use vstd::string::*;

verus! {

/// The character for one decimal digit.
pub open spec fn digit_char(d: int) -> char {
    if d == 0 {
        '0'
    } else if d == 1 {
        '1'
    } else if d == 2 {
        '2'
    } else if d == 3 {
        '3'
    } else if d == 4 {
        '4'
    } else if d == 5 {
        '5'
    } else if d == 6 {
        '6'
    } else if d == 7 {
        '7'
    } else if d == 8 {
        '8'
    } else {
        '9'
    }
}

/// The decimal digit string of a natural number, most significant digit
/// first, with no leading zeros (a lone zero for 0).
pub open spec fn digits(n: nat) -> Seq<char>
    decreases n,
{
    if n < 10 {
        seq![digit_char(n as int)]
    } else {
        digits(n / 10).push(digit_char((n % 10) as int))
    }
}

/// The decimal string of an integer: a minus sign before the digit string
/// for negative values.
pub open spec fn decimal(n: int) -> Seq<char> {
    if n < 0 {
        seq!['-'] + digits((-n) as nat)
    } else {
        digits(n as nat)
    }
}

/// The given token sequences joined by the separator character.
pub open spec fn joined(parts: Seq<Seq<char>>, sep: char) -> Seq<char>
    decreases parts.len(),
{
    if parts.len() == 0 {
        Seq::empty()
    } else if parts.len() == 1 {
        parts[0]
    } else {
        parts[0] + seq![sep] + joined(parts.drop_first(), sep)
    }
}

/// Appending one more token extends the joined string by a separator and
/// that token (or is the token itself when the list was empty).
pub proof fn lemma_joined_push(parts: Seq<Seq<char>>, x: Seq<char>, sep: char)
    ensures
        joined(parts.push(x), sep) == if parts.len() == 0 {
            x
        } else {
            joined(parts, sep) + seq![sep] + x
        },
    decreases parts.len(),
{
    if parts.len() == 0 {
        assert(parts.push(x)[0] == x);
    } else if parts.len() == 1 {
        assert(parts.push(x)[0] == parts[0]);
        assert(parts.push(x).drop_first() =~= seq![x]);
        assert(joined(parts.push(x).drop_first(), sep) == x);
    } else {
        assert(parts.push(x)[0] == parts[0]);
        assert(parts.push(x).drop_first() =~= parts.drop_first().push(x));
        lemma_joined_push(parts.drop_first(), x, sep);
    }
}

/// The views of a list of strings.
pub open spec fn string_views(parts: Seq<String>) -> Seq<Seq<char>> {
    parts.map(|i: int, s: String| s@)
}

fn digit_str(d: u32) -> (r: &'static str)
    requires
        d < 10,
    ensures
        r@ == seq![digit_char(d as int)],
{
    proof {
        reveal_strlit("0");
        reveal_strlit("1");
        reveal_strlit("2");
        reveal_strlit("3");
        reveal_strlit("4");
        reveal_strlit("5");
        reveal_strlit("6");
        reveal_strlit("7");
        reveal_strlit("8");
        reveal_strlit("9");
    }
    let r = if d == 0 {
        "0"
    } else if d == 1 {
        "1"
    } else if d == 2 {
        "2"
    } else if d == 3 {
        "3"
    } else if d == 4 {
        "4"
    } else if d == 5 {
        "5"
    } else if d == 6 {
        "6"
    } else if d == 7 {
        "7"
    } else if d == 8 {
        "8"
    } else {
        "9"
    };
    proof {
        assert(r@ =~= seq![digit_char(d as int)]);
    }
    r
}

fn u32_decimal(n: u32) -> (r: String)
    ensures
        r@ == digits(n as nat),
    decreases n,
{
    if n < 10 {
        String::from_str(digit_str(n))
    } else {
        let mut s = u32_decimal(n / 10);
        s.append(digit_str(n % 10));
        proof {
            assert(s@ =~= digits(n as nat));
        }
        s
    }
}

/// The decimal string of the given integer.
pub fn i32_decimal(val: i32) -> (r: String)
    ensures
        r@ == decimal(val as int),
{
    if val >= 0 {
        u32_decimal(val as u32)
    } else {
        let magnitude: u32 = (-(val as i64)) as u32;
        proof {
            reveal_strlit("-");
        }
        let mut s = String::from_str("-");
        let ds = u32_decimal(magnitude);
        s.append(ds.as_str());
        proof {
            assert(s@ =~= decimal(val as int));
        }
        s
    }
}

/// The given tokens joined by commas.
pub fn join_commas(parts: &Vec<String>) -> (r: String)
    ensures
        r@ == joined(string_views(parts@), ','),
{
    proof {
        reveal_strlit(",");
    }
    let mut out = String::new();
    let mut i: usize = 0;
    while i < parts.len()
        invariant
            i <= parts.len(),
            out@ == joined(string_views(parts@).take(i as int), ','),
        decreases parts.len() - i,
    {
        if i > 0 {
            out.append(",");
        }
        out.append(parts[i].as_str());
        proof {
            reveal_strlit(",");
            let views = string_views(parts@);
            assert(views.take(i as int).push(views[i as int]) =~= views.take(i + 1));
            lemma_joined_push(views.take(i as int), views[i as int], ',');
            assert(","@ =~= seq![',']);
        }
        i = i + 1;
    }
    proof {
        assert(string_views(parts@).take(parts@.len() as int) =~= string_views(parts@));
    }
    out
}

} // verus!
