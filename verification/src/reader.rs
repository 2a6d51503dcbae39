//! The read path: a slug is resolved through the process's own cache, then the
//! key/value store, then the table.
//!
//! The stores are reached by the caller. Each function here takes what is pending
//! and the store's reply, and says what is to be done next. The cache is held
//! here.

use moka::sync::Cache;
use std::sync::Arc;
use std::time::Duration;
use vstd::prelude::*;
use vstd::string::*;
use crate::http::StatusCode;
use crate::store::{found_view, opt_write_view, KvWrite, KvWriteView, StoreError};
use crate::text::{opt_view, views};

verus! {

/// Most entries that the cache of a resolver keeps.
pub const CACHE_CAPACITY: u64 = 100;

/// Seconds that an entry of the cache lives from its insertion.
pub const CACHE_TTL_SECS: u64 = 30;

/// Longest time to live, in seconds, that a cache can be built with: a thousand
/// years of 365 days.
pub const MAX_TTL_SECS: u64 = 31_536_000_000;

/// The concurrent cache of the crate `moka`.
#[verifier::external_type_specification]
#[verifier::external_body]
#[verifier::reject_recursive_types(K)]
#[verifier::reject_recursive_types(V)]
#[verifier::reject_recursive_types(S)]
pub struct ExCache<K, V, S>(Cache<K, V, S>);

/// The entries of a cache into which nothing was inserted yet: none.
pub open spec fn no_entries() -> Map<Seq<char>, Option<Seq<char>>> {
    Map::empty()
}

/// For each slug that was ever inserted into `cache`, what was inserted for it
/// last: a URL, or the note that the slug does not exist. The cache may have
/// dropped any of these entries since, for age or for room.
pub uninterp spec fn cache_stored(cache: Cache<String, Arc<Option<String>>>) -> Map<
    Seq<char>,
    Option<Seq<char>>,
>;

/// The limits that `cache` was built with: the number of entries it keeps at most,
/// and the seconds an entry lives from its insertion.
pub uninterp spec fn cache_limits(cache: Cache<String, Arc<Option<String>>>) -> (u64, u64);

/// `moka::sync::Cache::builder`, with `max_capacity`, `time_to_live` and `build`:
/// an empty cache with these two limits. `build` panics on a time to live of more
/// than a thousand years.
#[verifier::external_body]
fn cache_new(capacity: u64, ttl_secs: u64) -> (cache: Cache<String, Arc<Option<String>>>)
    requires
        ttl_secs <= MAX_TTL_SECS,
    ensures
        cache_stored(cache) == no_entries(),
        cache_limits(cache) == (capacity, ttl_secs),
{
    Cache::builder().max_capacity(capacity).time_to_live(Duration::from_secs(ttl_secs)).build()
}

/// `moka::sync::Cache::get`: a copy of the value that the cache holds for `key`.
/// That is the value inserted for the key last, unless the cache dropped the entry;
/// which of the two is left open. Nothing is inserted.
#[verifier::external_body]
fn cache_get(cache: &mut Cache<String, Arc<Option<String>>>, key: &str) -> (hit: Option<
    Option<String>,
>)
    ensures
        cache_stored(*final(cache)) == cache_stored(*old(cache)),
        cache_limits(*final(cache)) == cache_limits(*old(cache)),
        hit matches Some(value) ==> cache_stored(*old(cache)).contains_key(key@),
        hit matches Some(value) ==> cache_stored(*old(cache))[key@] == opt_view(value),
{
    cache.get(key).map(|held| held.as_ref().clone())
}

/// `moka::sync::Cache::insert`: `value` becomes what was inserted for `key` last.
#[verifier::external_body]
fn cache_insert(cache: &mut Cache<String, Arc<Option<String>>>, key: String, value: Option<String>)
    ensures
        cache_stored(*final(cache)) == cache_stored(*old(cache)).insert(key@, opt_view(value)),
        cache_limits(*final(cache)) == cache_limits(*old(cache)),
{
    cache.insert(key, Arc::new(value))
}

/// A store's reply to what a lookup asked of it last.
#[derive(Debug, PartialEq, Eq)]
pub enum LiveReply {
    /// Nothing was asked yet.
    Nothing,
    /// To the question for the slug's value in the key/value store.
    Value(Result<Option<String>, StoreError>),
    /// To the question for the slug's row in the table: the URLs of the rows found.
    Rows(Result<Vec<String>, StoreError>),
}

/// What a [`LiveReply`] holds.
pub enum LiveReplyView {
    Nothing,
    Value(Result<Option<Seq<char>>, StoreError>),
    Rows(Result<Seq<Seq<char>>, StoreError>),
}

impl View for LiveReply {
    type V = LiveReplyView;

    open spec fn view(&self) -> LiveReplyView {
        match *self {
            LiveReply::Nothing => LiveReplyView::Nothing,
            LiveReply::Value(r) => LiveReplyView::Value(found_view(r)),
            LiveReply::Rows(Ok(v)) => LiveReplyView::Rows(Ok(views(v@))),
            LiveReply::Rows(Err(e)) => LiveReplyView::Rows(Err(e)),
        }
    }
}

/// How a lookup ended.
#[derive(Debug, PartialEq, Eq)]
pub struct Resolution {
    /// The URL of the slug, nothing where the slug does not exist, or the failure
    /// of a store.
    pub found: Result<Option<String>, StoreError>,
    /// What is to be written to the key/value store, without waiting for the
    /// outcome: the slug with its URL, where the table gave it.
    pub backfill: Option<KvWrite>,
}

/// What a [`Resolution`] holds.
pub struct ResolutionView {
    pub found: Result<Option<Seq<char>>, StoreError>,
    pub backfill: Option<KvWriteView>,
}

impl View for Resolution {
    type V = ResolutionView;

    open spec fn view(&self) -> ResolutionView {
        ResolutionView { found: found_view(self.found), backfill: opt_write_view(self.backfill) }
    }
}

/// Where a lookup in the stores stands: what it asks next, or how it ended.
#[derive(Debug, PartialEq, Eq)]
pub enum LiveStep {
    /// Ask the key/value store for the slug's value.
    GetValue,
    /// Ask the table for the URL of the slug's row.
    SelectUrl,
    /// The lookup ended.
    Done(Resolution),
}

/// What a [`LiveStep`] holds.
pub enum LiveStepView {
    GetValue,
    SelectUrl,
    Done(ResolutionView),
}

impl View for LiveStep {
    type V = LiveStepView;

    open spec fn view(&self) -> LiveStepView {
        match *self {
            LiveStep::GetValue => LiveStepView::GetValue,
            LiveStep::SelectUrl => LiveStepView::SelectUrl,
            LiveStep::Done(r) => LiveStepView::Done(r@),
        }
    }
}

/// Where a lookup through the cache stands.
#[derive(Debug, PartialEq, Eq)]
pub enum LookupStep {
    /// Nothing was looked at yet.
    Start,
    /// The cache had no entry: the stores are asked.
    Live(LiveStep),
    /// The lookup ended.
    Done(Resolution),
}

/// What a [`LookupStep`] holds.
pub enum LookupStepView {
    Start,
    Live(LiveStepView),
    Done(ResolutionView),
}

impl View for LookupStep {
    type V = LookupStepView;

    open spec fn view(&self) -> LookupStepView {
        match *self {
            LookupStep::Start => LookupStepView::Start,
            LookupStep::Live(s) => LookupStepView::Live(s@),
            LookupStep::Done(r) => LookupStepView::Done(r@),
        }
    }
}

// ---------------------------------------------------------------------------
// The stores

/// A lookup that ended with `found` and nothing to write.
pub open spec fn ended(found: Result<Option<Seq<char>>, StoreError>) -> LiveStepView {
    LiveStepView::Done(ResolutionView { found, backfill: None })
}

/// The step that follows `pending` in a lookup of `slug` in the stores, once they
/// replied with `reply`.
///
/// A value in the key/value store ends the lookup with it. Without one the table
/// is asked: its first row ends the lookup with its URL, which is also to be
/// written to the key/value store; no row ends it with nothing found. A store that
/// failed, or a reply to something that was not asked, ends the lookup with the
/// failure.
pub open spec fn live_next(slug: Seq<char>, pending: LiveStepView, reply: LiveReplyView) -> LiveStepView {
    match pending {
        LiveStepView::GetValue => match reply {
            LiveReplyView::Value(Ok(Some(url))) => ended(Ok(Some(url))),
            LiveReplyView::Value(Ok(None)) => LiveStepView::SelectUrl,
            _ => ended(Err(StoreError)),
        },
        LiveStepView::SelectUrl => match reply {
            LiveReplyView::Rows(Ok(rows)) => if rows.len() == 0 {
                ended(Ok(None))
            } else {
                LiveStepView::Done(
                    ResolutionView {
                        found: Ok(Some(rows[0])),
                        backfill: Some(KvWriteView { key: slug, value: rows[0] }),
                    },
                )
            },
            _ => ended(Err(StoreError)),
        },
        LiveStepView::Done(r) => LiveStepView::Done(r),
    }
}

/// A lookup that ended with `found` and nothing to write.
pub fn end(found: Result<Option<String>, StoreError>) -> (step: LiveStep)
    ensures
        step@ == ended(found_view(found)),
{
    LiveStep::Done(Resolution { found, backfill: None })
}

/// Takes a lookup of `slug` in the stores one step further: see [`live_next`].
pub fn lookup_live(slug: &str, pending: LiveStep, reply: LiveReply) -> (next: LiveStep)
    ensures
        next@ == live_next(slug@, pending@, reply@),
{
    match pending {
        LiveStep::GetValue => match reply {
            LiveReply::Value(Ok(Some(url))) => end(Ok(Some(url))),
            LiveReply::Value(Ok(None)) => LiveStep::SelectUrl,
            _ => end(Err(StoreError)),
        },
        LiveStep::SelectUrl => match reply {
            LiveReply::Rows(Ok(rows)) => if rows.len() == 0 {
                end(Ok(None))
            } else {
                let url = rows[0].clone();
                let write = KvWrite { key: slug.to_owned(), value: url.clone() };
                LiveStep::Done(Resolution { found: Ok(Some(url)), backfill: Some(write) })
            },
            _ => end(Err(StoreError)),
        },
        LiveStep::Done(r) => LiveStep::Done(r),
    }
}

// ---------------------------------------------------------------------------
// The cache

/// The step that the cache's answer for a slug leads to: the end of the lookup
/// where the cache holds an entry, be it a URL or the note that the slug does not
/// exist; else the question to the key/value store.
pub open spec fn after_cache(hit: Option<Option<Seq<char>>>) -> LookupStepView {
    match hit {
        Some(entry) => LookupStepView::Done(ResolutionView { found: Ok(entry), backfill: None }),
        None => LookupStepView::Live(LiveStepView::GetValue),
    }
}

/// Whether the cache may answer `hit` for `slug`, `stored` being what was inserted
/// for each slug last: nothing, or what was inserted for `slug`.
pub open spec fn may_answer(
    stored: Map<Seq<char>, Option<Seq<char>>>,
    slug: Seq<char>,
    hit: Option<Option<Seq<char>>>,
) -> bool {
    hit matches Some(entry) ==> stored.contains_key(slug) && stored[slug] == entry
}

/// What the cache has as inserted last for each slug, after a lookup of `slug` in
/// the stores reached `step`: an end with a URL or with nothing found is inserted
/// for `slug`; a failure is not, nor a step that is no end.
pub open spec fn remembered(
    stored: Map<Seq<char>, Option<Seq<char>>>,
    slug: Seq<char>,
    step: LiveStepView,
) -> Map<Seq<char>, Option<Seq<char>>> {
    match step {
        LiveStepView::Done(r) => match r.found {
            Ok(entry) => stored.insert(slug, entry),
            Err(_) => stored,
        },
        _ => stored,
    }
}

/// What follows one step of a lookup in the stores inside a lookup through the
/// cache: the end where the stores' lookup ended, else its own next step.
pub open spec fn after_live(step: LiveStepView) -> LookupStepView {
    match step {
        LiveStepView::Done(r) => LookupStepView::Done(r),
        _ => LookupStepView::Live(step),
    }
}

/// The view of an answer of the cache.
pub open spec fn hit_view(hit: Option<Option<String>>) -> Option<Option<Seq<char>>> {
    match hit {
        Some(entry) => Some(opt_view(entry)),
        None => None,
    }
}

/// The step that follows `pending` in a lookup of `slug` through the cache, once the
/// stores replied with `reply`; `hit` is what the cache answers where it is asked.
///
/// At the start the cache is asked: see [`after_cache`]. After that the lookup in
/// the stores goes on as [`live_next`] says, until it ends: see [`after_live`]. An
/// end stays.
pub open spec fn lookup_next(
    slug: Seq<char>,
    pending: LookupStepView,
    reply: LiveReplyView,
    hit: Option<Option<Seq<char>>>,
) -> LookupStepView {
    match pending {
        LookupStepView::Start => after_cache(hit),
        LookupStepView::Live(step) => after_live(live_next(slug, step, reply)),
        LookupStepView::Done(r) => LookupStepView::Done(r),
    }
}

/// What a resolver has as remembered last for each slug after the step that
/// follows `pending`: what the stores' lookup ends with is remembered for `slug`,
/// unless it is a failure: see [`remembered`]. No other step changes anything.
pub open spec fn lookup_stored(
    stored: Map<Seq<char>, Option<Seq<char>>>,
    slug: Seq<char>,
    pending: LookupStepView,
    reply: LiveReplyView,
) -> Map<Seq<char>, Option<Seq<char>>> {
    match pending {
        LookupStepView::Live(step) => remembered(stored, slug, live_next(slug, step, reply)),
        _ => stored,
    }
}

/// The step that the cache's answer leads to: see [`after_cache`].
pub fn consult(hit: Option<Option<String>>) -> (step: LookupStep)
    ensures
        step@ == after_cache(hit_view(hit)),
{
    match hit {
        Some(entry) => LookupStep::Done(Resolution { found: Ok(entry), backfill: None }),
        None => LookupStep::Live(LiveStep::GetValue),
    }
}

/// Resolves slugs, and remembers for a while what it found.
pub struct Resolver {
    memory_cache: Cache<String, Arc<Option<String>>>,
}

impl Resolver {
    /// For each slug that this resolver ever remembered, what it remembered last: a
    /// URL, or that the slug does not exist. The cache may have dropped any of
    /// these entries since.
    pub closed spec fn stored(&self) -> Map<Seq<char>, Option<Seq<char>>> {
        cache_stored(self.memory_cache)
    }

    /// The limits of the cache: the number of entries it keeps at most, and the
    /// seconds an entry lives from its insertion.
    pub closed spec fn limits(&self) -> (u64, u64) {
        cache_limits(self.memory_cache)
    }

    /// A resolver that remembers nothing yet, with a cache of at most
    /// [`CACHE_CAPACITY`] entries that live [`CACHE_TTL_SECS`] seconds each.
    pub fn new() -> (resolver: Resolver)
        ensures
            resolver.stored() == no_entries(),
            resolver.limits() == (CACHE_CAPACITY, CACHE_TTL_SECS),
    {
        Resolver { memory_cache: cache_new(CACHE_CAPACITY, CACHE_TTL_SECS) }
    }

    /// Takes a lookup of `slug` one step further: see [`lookup_next`], where `hit`
    /// is what the cache answers at the start: nothing, or what was remembered for
    /// `slug` last. What the lookup ends with is remembered as [`lookup_stored`]
    /// says.
    pub fn lookup_cached(&mut self, slug: &str, pending: LookupStep, reply: LiveReply) -> (next:
        LookupStep)
        ensures
            final(self).limits() == old(self).limits(),
            final(self).stored() == lookup_stored(old(self).stored(), slug@, pending@, reply@),
            exists|hit: Option<Option<Seq<char>>>|
                may_answer(old(self).stored(), slug@, hit) && next@ == lookup_next(
                    slug@,
                    pending@,
                    reply@,
                    hit,
                ),
    {
        match pending {
            LookupStep::Start => {
                let hit = cache_get(&mut self.memory_cache, slug);
                let next = consult(hit);
                proof {
                    let seen = hit_view(hit);
                    assert(may_answer(old(self).stored(), slug@, seen) && next@ == lookup_next(
                        slug@,
                        pending@,
                        reply@,
                        seen,
                    ));
                }
                next
            },
            LookupStep::Live(step) => {
                let next = match lookup_live(slug, step, reply) {
                    LiveStep::Done(r) => {
                        match &r.found {
                            Ok(Some(url)) => cache_insert(
                                &mut self.memory_cache,
                                slug.to_owned(),
                                Some(url.clone()),
                            ),
                            Ok(None) => cache_insert(&mut self.memory_cache, slug.to_owned(), None),
                            Err(_) => {},
                        }
                        LookupStep::Done(r)
                    },
                    step => LookupStep::Live(step),
                };
                assert(may_answer(old(self).stored(), slug@, None) && next@ == lookup_next(
                    slug@,
                    pending@,
                    reply@,
                    None,
                ));
                next
            },
            LookupStep::Done(r) => {
                assert(may_answer(old(self).stored(), slug@, None) && pending@ == lookup_next(
                    slug@,
                    pending@,
                    reply@,
                    None,
                ));
                LookupStep::Done(r)
            },
        }
    }
}

// ---------------------------------------------------------------------------
// The redirect

/// The answer to a request for a redirect.
#[derive(Debug, PartialEq, Eq)]
pub struct RedirectResponse {
    pub status: StatusCode,
    /// Value of the `Location` header, where the status is 307.
    pub location: Option<String>,
}

/// What a [`RedirectResponse`] holds.
pub struct RedirectView {
    pub status: StatusCode,
    pub location: Option<Seq<char>>,
}

impl View for RedirectResponse {
    type V = RedirectView;

    open spec fn view(&self) -> RedirectView {
        RedirectView { status: self.status, location: opt_view(self.location) }
    }
}

/// The answer to a request for a redirect, given what the lookup of the slug found:
/// a temporary redirect to the URL, 404 where the slug does not exist, 503 where
/// the stores failed.
pub open spec fn redirect_for(found: Result<Option<Seq<char>>, StoreError>) -> RedirectView {
    match found {
        Ok(Some(url)) => RedirectView { status: StatusCode::TemporaryRedirect, location: Some(url) },
        Ok(None) => RedirectView { status: StatusCode::NotFound, location: None },
        Err(_) => RedirectView { status: StatusCode::ServiceUnavailable, location: None },
    }
}

/// Answers a request for a redirect: see [`redirect_for`].
pub fn handle_redirect_get(found: Result<Option<String>, StoreError>) -> (out: RedirectResponse)
    ensures
        out@ == redirect_for(found_view(found)),
{
    match found {
        Ok(Some(url)) => RedirectResponse { status: StatusCode::TemporaryRedirect, location: Some(url) },
        Ok(None) => RedirectResponse { status: StatusCode::NotFound, location: None },
        Err(_) => RedirectResponse { status: StatusCode::ServiceUnavailable, location: None },
    }
}

} // verus!
