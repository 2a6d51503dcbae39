//! Slugs: the short identifiers that stand for long URLs.

use vstd::prelude::*;
use vstd::string::*;
use crate::text::{byte_count, byte_len, push_char};

verus! {

/// Number of symbols in the alphabet of generated slugs.
pub const ALPHABET_LEN: usize = 62;

/// Fewest bytes that a slug chosen by a caller may have.
pub const MIN_SLUG_LEN: usize = 3;

/// Most bytes that a slug chosen by a caller may have.
pub const MAX_SLUG_LEN: usize = 256;

/// The symbol at position `i` of the alphabet `0-9A-Za-z`.
pub open spec fn symbol_at(i: int) -> char {
    if i < 10 {
        (48 + i) as u8 as char
    } else if i < 36 {
        (65 + (i - 10)) as u8 as char
    } else {
        (97 + (i - 36)) as u8 as char
    }
}

/// Whether `c` is a symbol of the alphabet: a digit or an ASCII letter.
pub open spec fn is_symbol(c: char) -> bool {
    ('0' <= c && c <= '9') || ('A' <= c && c <= 'Z') || ('a' <= c && c <= 'z')
}

/// Whether `s` is written in the alphabet of generated slugs.
pub open spec fn is_generated(s: Seq<char>) -> bool {
    forall|i: int| 0 <= i < s.len() ==> is_symbol(#[trigger] s[i])
}

/// The slug that a sequence of positions in the alphabet spells.
pub open spec fn spelled(positions: Seq<usize>) -> Seq<char> {
    positions.map_values(|p: usize| symbol_at(p as int))
}

/// Whether a slug chosen by a caller has an accepted length: 3 to 256 bytes.
pub open spec fn valid_length(s: Seq<char>) -> bool {
    MIN_SLUG_LEN <= byte_len(s) <= MAX_SLUG_LEN
}

/// What the column `first_char` holds for `slug`: its first character, or nothing
/// for the empty slug.
pub open spec fn first_char_of(slug: Seq<char>) -> Seq<char> {
    if slug.len() > 0 {
        seq![slug[0]]
    } else {
        Seq::empty()
    }
}

/// The alphabet holds exactly the digits and the ASCII letters, each once.
pub proof fn lemma_alphabet()
    ensures
        forall|i: int| 0 <= i < ALPHABET_LEN ==> is_symbol(#[trigger] symbol_at(i)),
        forall|i: int, j: int|
            0 <= i < j < ALPHABET_LEN ==> #[trigger] symbol_at(i) != #[trigger] symbol_at(j),
        forall|c: char|
            is_symbol(c) ==> exists|i: int| 0 <= i < ALPHABET_LEN && #[trigger] symbol_at(i) == c,
{
    assert forall|c: char| is_symbol(c) implies exists|i: int|
        0 <= i < ALPHABET_LEN && #[trigger] symbol_at(i) == c by {
        let n = c as u32 as int;
        let i = if n <= 57 {
            n - 48
        } else if n <= 90 {
            n - 65 + 10
        } else {
            n - 97 + 36
        };
        assert(symbol_at(i) == c);
    }
}

/// The symbol at position `i` of the alphabet.
pub fn symbol(i: usize) -> (c: char)
    requires
        i < ALPHABET_LEN,
    ensures
        c == symbol_at(i as int),
        is_symbol(c),
{
    let b: u8 = if i < 10 {
        48u8 + (i as u8)
    } else if i < 36 {
        65u8 + ((i - 10) as u8)
    } else {
        97u8 + ((i - 36) as u8)
    };
    b as char
}

/// Whether a slug chosen by a caller has an accepted length.
pub fn has_valid_length(slug: &str) -> (ok: bool)
    ensures
        ok == valid_length(slug@),
{
    let n = byte_count(slug);
    MIN_SLUG_LEN <= n && n <= MAX_SLUG_LEN
}

/// What the column `first_char` holds for `slug`.
pub fn first_char(slug: &str) -> (out: String)
    ensures
        out@ == first_char_of(slug@),
{
    let mut out = String::new();
    if !slug.is_empty() {
        push_char(&mut out, slug.get_char(0));
    }
    out
}

} // verus!
