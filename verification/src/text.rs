//! Small helpers on strings and characters that the other modules share.

use vstd::prelude::*;
use vstd::string::*;
use vstd::utf8::*;

verus! {

/// Number of bytes that the UTF-8 form of `s` takes.
pub open spec fn byte_len(s: Seq<char>) -> nat {
    encode_utf8(s).len()
}

/// The views of a list of strings.
pub open spec fn views(v: Seq<String>) -> Seq<Seq<char>> {
    v.map_values(|s: String| s@)
}

/// The view of an optional string.
pub open spec fn opt_view(o: Option<String>) -> Option<Seq<char>> {
    match o {
        Some(s) => Some(s@),
        None => None,
    }
}

/// The ASCII lower-case form of one character.
pub open spec fn lower(c: char) -> char {
    if 'A' <= c && c <= 'Z' {
        ((c as u8) + 32) as u8 as char
    } else {
        c
    }
}

/// The ASCII lower-case form of a text: every letter `A`..`Z` replaced by `a`..`z`.
pub open spec fn lowered(s: Seq<char>) -> Seq<char> {
    s.map_values(|c: char| lower(c))
}

/// `std::string::String::push`: the string afterwards is the string before with
/// `c` appended.
#[verifier::external_body]
pub(crate) fn push_char(s: &mut String, c: char)
    ensures
        final(s)@ == old(s)@.push(c),
{
    s.push(c)
}

/// The ASCII lower-case form of `c`.
pub fn to_lower(c: char) -> (out: char)
    ensures
        out == lower(c),
{
    if c >= 'A' && c <= 'Z' {
        ((c as u8) + 32u8) as char
    } else {
        c
    }
}

/// The ASCII lower-case form of `text`.
pub fn to_lowered(text: &str) -> (out: String)
    ensures
        out@ == lowered(text@),
{
    let mut out = String::new();
    let it = text.chars();
    for c in iter: it
        invariant
            iter.seq() == text@,
            out@ == lowered(text@.take(iter.index() as int)),
    {
        let ghost before = text@.take(iter.index() as int);
        assert(text@.take(iter.index() + 1) == before.push(c));
        assert(lowered(before.push(c)) == lowered(before).push(lower(c)));
        push_char(&mut out, to_lower(c));
    }
    assert(text@.take(text@.len() as int) == text@);
    out
}

/// The view of an optional borrowed text.
pub open spec fn opt_str_view(o: Option<&str>) -> Option<Seq<char>> {
    match o {
        Some(s) => Some(s@),
        None => None,
    }
}

/// Number of bytes in `text`.
pub fn byte_count(text: &str) -> (n: usize)
    ensures
        n == byte_len(text@),
{
    text.as_bytes().len()
}

/// Whether two texts hold the same characters.
pub fn same_text(a: &str, b: &str) -> (same: bool)
    ensures
        same == (a@ == b@),
{
    let x = a.to_owned();
    let y = b.to_owned();
    x == y
}

/// An owned copy of an optional string.
pub fn copy_opt(o: &Option<String>) -> (out: Option<String>)
    ensures
        opt_view(out) == opt_view(*o),
{
    match o {
        Some(s) => Some(s.clone()),
        None => None,
    }
}

} // verus!
