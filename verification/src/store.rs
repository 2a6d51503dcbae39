//! What the services ask of the two stores, and what the stores answer.

use vstd::prelude::*;
use crate::text::opt_view;

verus! {

/// A store could not be reached, or answered with an error.
#[derive(Clone, Copy, Debug, PartialEq, Eq, Structural)]
pub struct StoreError;

/// A row of the table `slugs`.
#[derive(Clone, Debug, PartialEq, Eq)]
pub struct SlugRecord {
    /// The first character of `slug`.
    pub first_char: String,
    /// The slug: the table's key.
    pub slug: String,
    /// The URL that the slug stands for.
    pub url: String,
    /// Who made the record, if that was said.
    pub owner: Option<String>,
}

/// What a [`SlugRecord`] holds.
pub struct RecordView {
    pub first_char: Seq<char>,
    pub slug: Seq<char>,
    pub url: Seq<char>,
    pub owner: Option<Seq<char>>,
}

impl View for SlugRecord {
    type V = RecordView;

    open spec fn view(&self) -> RecordView {
        RecordView {
            first_char: self.first_char@,
            slug: self.slug@,
            url: self.url@,
            owner: opt_view(self.owner),
        }
    }
}

/// A `SET` of the key/value store: `key` is to map to `value`.
#[derive(Clone, Debug, PartialEq, Eq)]
pub struct KvWrite {
    pub key: String,
    pub value: String,
}

/// What a [`KvWrite`] holds.
pub struct KvWriteView {
    pub key: Seq<char>,
    pub value: Seq<char>,
}

impl View for KvWrite {
    type V = KvWriteView;

    open spec fn view(&self) -> KvWriteView {
        KvWriteView { key: self.key@, value: self.value@ }
    }
}

/// The view of an optional [`KvWrite`].
pub open spec fn opt_write_view(o: Option<KvWrite>) -> Option<KvWriteView> {
    match o {
        Some(w) => Some(w@),
        None => None,
    }
}

/// What a lookup of a slug found: a URL, nothing, or a store that failed.
pub open spec fn found_view(r: Result<Option<String>, StoreError>) -> Result<
    Option<Seq<char>>,
    StoreError,
> {
    match r {
        Ok(o) => Ok(opt_view(o)),
        Err(e) => Err(e),
    }
}

} // verus!
