//! URLs: what a shortened link may point to, and the public address of a slug.

use vstd::prelude::*;
use vstd::string::*;
use crate::text::{byte_count, byte_len, opt_view, same_text};

verus! {

/// Longest text, in bytes, that is handed over for assembling a URL. A URL keeps
/// 32-bit offsets into its own text; with a base and a path of this length at most,
/// that text stays far below what such an offset can hold, even where every byte is
/// written as a three-byte escape.
pub const MAX_TEXT_BYTES: usize = 100_000_000;

/// A URL that was parsed: its scheme and its normalised text.
pub struct ParsedUrl {
    /// The scheme, without the colon.
    pub scheme: String,
    /// The whole URL as the parser writes it back.
    pub href: String,
}

/// What parsing `text` as an absolute URL gives: nothing, or the scheme and the
/// normalised text of the URL.
pub uninterp spec fn url_parts(text: Seq<char>) -> Option<(Seq<char>, Seq<char>)>;

/// What replacing the path of the URL `base` by `path` gives: nothing where `base`
/// is no absolute URL, else the text of the new URL.
pub uninterp spec fn url_with_path(base: Seq<char>, path: Seq<char>) -> Option<Seq<char>>;

/// `url::Url::parse`, then `Url::scheme` and `Url::as_str` on the result. The
/// contract names the outcome after the text alone: the parser reads nothing else.
#[verifier::external_body]
pub(crate) fn parse_url(text: &str) -> (out: Option<ParsedUrl>)
    ensures
        out matches Some(u) ==> url_parts(text@) == Some((u.scheme@, u.href@)),
        out is None ==> url_parts(text@) is None,
{
    match url::Url::parse(text) {
        Ok(u) => Some(ParsedUrl { scheme: u.scheme().to_string(), href: u.as_str().to_string() }),
        Err(_) => None,
    }
}

/// `url::Url::parse` on `base`, then `Url::set_path` with `path` and `Url::as_str`.
/// The length bound keeps the 32-bit offsets inside `set_path` from overflowing.
#[verifier::external_body]
pub(crate) fn replace_path(base: &str, path: &str) -> (out: Option<String>)
    requires
        byte_len(base@) <= MAX_TEXT_BYTES,
        byte_len(path@) <= MAX_TEXT_BYTES,
    ensures
        out matches Some(s) ==> url_with_path(base@, path@) == Some(s@),
        out is None ==> url_with_path(base@, path@) is None,
{
    match url::Url::parse(base) {
        Ok(mut u) => {
            u.set_path(path);
            Some(u.as_str().to_string())
        },
        Err(_) => None,
    }
}

/// Whether `scheme` is one that a shortened link may have: `http` or `https`.
pub open spec fn is_web_scheme(scheme: Seq<char>) -> bool {
    scheme == "http"@ || scheme == "https"@
}

/// The target that a parsed URL gives a shortened link: its normalised text where
/// the scheme is `http` or `https`, nothing otherwise.
pub open spec fn target_of(parts: Option<(Seq<char>, Seq<char>)>) -> Option<Seq<char>> {
    match parts {
        Some((scheme, href)) => if is_web_scheme(scheme) {
            Some(href)
        } else {
            None
        },
        None => None,
    }
}

/// The target of a shortened link for a URL already parsed: see [`target_of`].
pub fn web_target(parsed: Option<ParsedUrl>) -> (out: Option<String>)
    ensures
        opt_view(out) == target_of(
            match parsed {
                Some(u) => Some((u.scheme@, u.href@)),
                None => None,
            },
        ),
{
    match parsed {
        Some(u) => {
            if same_text(u.scheme.as_str(), "http") || same_text(u.scheme.as_str(), "https") {
                Some(u.href)
            } else {
                None
            }
        },
        None => None,
    }
}

/// Parses `text` and gives the target of a shortened link for it: the normalised
/// URL where `text` is an absolute URL with scheme `http` or `https`, nothing
/// otherwise.
pub fn parse_target(text: &str) -> (out: Option<String>)
    ensures
        opt_view(out) == target_of(url_parts(text@)),
{
    web_target(parse_url(text))
}

/// The public address of `slug` under `domain`: the URL `domain` with `slug` as its
/// path. Nothing where a text is over [`MAX_TEXT_BYTES`] or `domain` is no URL.
pub open spec fn public_url(domain: Seq<char>, slug: Seq<char>) -> Option<Seq<char>> {
    if byte_len(domain) > MAX_TEXT_BYTES || byte_len(slug) > MAX_TEXT_BYTES {
        None
    } else {
        url_with_path(domain, slug)
    }
}

/// The public address of `slug` under `domain`: see [`public_url`].
pub fn short_url(domain: &str, slug: &str) -> (out: Option<String>)
    ensures
        opt_view(out) == public_url(domain@, slug@),
{
    if byte_count(domain) > MAX_TEXT_BYTES || byte_count(slug) > MAX_TEXT_BYTES {
        None
    } else {
        replace_path(domain, slug)
    }
}

} // verus!
