//! Text building blocks shared by the SQL renderers: joining fragments with a
//! separator, decimal numerals, and lower-casing.

use vstd::prelude::*;

verus! {

/// The views of a sequence of strings, in order.
pub open spec fn strings(items: Seq<String>) -> Seq<Seq<char>> {
    items.map_values(|s: String| s@)
}

/// The views of a sequence of string slices, in order.
pub open spec fn slices(items: Seq<&str>) -> Seq<Seq<char>> {
    items.map_values(|s: &str| s@)
}

/// `parts` written one after another with `sep` between neighbours.
pub open spec fn joined(parts: Seq<Seq<char>>, sep: Seq<char>) -> Seq<char>
    decreases parts.len(),
{
    if parts.len() == 0 {
        Seq::empty()
    } else if parts.len() == 1 {
        parts[0]
    } else {
        joined(parts.drop_last(), sep) + sep + parts.last()
    }
}

/// `n` copies of `part`.
pub open spec fn repeated(part: Seq<char>, n: nat) -> Seq<Seq<char>> {
    Seq::new(n, |i: int| part)
}

/// Joining one more part appends the separator and the part, unless it is the
/// first part.
pub proof fn lemma_joined_push(parts: Seq<Seq<char>>, sep: Seq<char>, part: Seq<char>)
    ensures
        joined(parts.push(part), sep) == if parts.len() == 0 {
            part
        } else {
            joined(parts, sep) + sep + part
        },
{
    let all = parts.push(part);
    assert(all.drop_last() =~= parts);
    assert(all.last() == part);
    if parts.len() == 0 {
        assert(all[0] == part);
    }
}

/// Joins `parts` with `sep` between neighbours.
pub fn join(parts: &Vec<String>, sep: &str) -> (out: String)
    ensures
        out@ == joined(strings(parts@), sep@),
{
    let mut out = String::new();
    let mut i: usize = 0;
    while i < parts.len()
        invariant
            i <= parts.len(),
            out@ == joined(strings(parts@).take(i as int), sep@),
        decreases parts.len() - i,
    {
        proof {
            let done = strings(parts@).take(i as int);
            lemma_joined_push(done, sep@, parts@[i as int]@);
            assert(strings(parts@).take(i + 1) =~= done.push(parts@[i as int]@));
        }
        if i > 0 {
            out.append(sep);
        }
        out.append(parts[i].as_str());
        i += 1;
    }
    proof {
        assert(strings(parts@).take(parts@.len() as int) =~= strings(parts@));
    }
    out
}

/// Copies a list of strings.
pub fn clone_strings(items: &Vec<String>) -> (out: Vec<String>)
    ensures
        strings(out@) == strings(items@),
{
    let mut out: Vec<String> = Vec::new();
    let mut i: usize = 0;
    while i < items.len()
        invariant
            i <= items.len(),
            strings(out@) == strings(items@).take(i as int),
        decreases items.len() - i,
    {
        let ghost before = strings(out@);
        out.push(items[i].clone());
        proof {
            assert(strings(out@) =~= before.push(items@[i as int]@));
            assert(strings(items@).take(i + 1) =~= before.push(items@[i as int]@));
        }
        i += 1;
    }
    proof {
        assert(strings(items@).take(items@.len() as int) =~= strings(items@));
    }
    out
}

/// The decimal digit `d` as text; empty for a number that is no digit.
pub open spec fn digit(d: nat) -> Seq<char> {
    if d == 0 {
        "0"@
    } else if d == 1 {
        "1"@
    } else if d == 2 {
        "2"@
    } else if d == 3 {
        "3"@
    } else if d == 4 {
        "4"@
    } else if d == 5 {
        "5"@
    } else if d == 6 {
        "6"@
    } else if d == 7 {
        "7"@
    } else if d == 8 {
        "8"@
    } else if d == 9 {
        "9"@
    } else {
        Seq::empty()
    }
}

/// The decimal numeral of `n`, without sign or leading zeros.
pub open spec fn decimal(n: nat) -> Seq<char>
    decreases n,
{
    if n < 10 {
        digit(n)
    } else {
        decimal(n / 10) + digit(n % 10)
    }
}

fn digit_text(d: u8) -> (out: &'static str)
    requires
        d < 10,
    ensures
        out@ == digit(d as nat),
{
    if d == 0 {
        "0"
    } else if d == 1 {
        "1"
    } else if d == 2 {
        "2"
    } else if d == 3 {
        "3"
    } else if d == 4 {
        "4"
    } else if d == 5 {
        "5"
    } else if d == 6 {
        "6"
    } else if d == 7 {
        "7"
    } else if d == 8 {
        "8"
    } else {
        "9"
    }
}

/// Writes `n` as a decimal numeral.
pub fn decimal_text(n: u128) -> (out: String)
    ensures
        out@ == decimal(n as nat),
    decreases n,
{
    if n < 10 {
        digit_text(n as u8).to_owned()
    } else {
        let mut out = decimal_text(n / 10);
        out.append(digit_text((n % 10) as u8));
        out
    }
}

/// What `str::to_lowercase` returns for a string with the characters `s`.
pub uninterp spec fn lowercase(s: Seq<char>) -> Seq<char>;

/// `str::to_lowercase`: the lowercase equivalent of `s`, by the Unicode derived
/// core property `Lowercase`. It depends on nothing but the characters of `s`.
#[verifier::external_body]
pub(crate) fn to_lowercase(s: &str) -> (out: String)
    ensures
        out@ == lowercase(s@),
{
    s.to_lowercase()
}

} // verus!
