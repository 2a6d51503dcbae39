//! The write path: a request to shorten a URL is checked, gets a slug (its own or
//! one from the pool) and is answered.
//!
//! The stores are reached by the caller. Each function here takes what is pending
//! and the store's reply, and says what is to be done next.

use vstd::prelude::*;
use vstd::string::*;
use crate::http::StatusCode;
use crate::link::{parse_target, target_of, url_parts};
use crate::slug::{first_char, first_char_of, has_valid_length, valid_length};
use crate::store::{KvWrite, KvWriteView, RecordView, SlugRecord, StoreError};
use crate::text::{copy_opt, opt_view};

verus! {

/// Most slugs that one request takes from the pool before it gives up.
pub const MAX_ATTEMPTS: usize = 6;

/// The body of a request to shorten a URL, and of the answer to it.
#[derive(Clone, Debug, PartialEq, Eq)]
pub struct ShortenPayload {
    /// Who asks, if that is said.
    pub owner: Option<String>,
    /// The slug: the caller's choice in a request, the slug given in an answer.
    pub slug: Option<String>,
    /// The URL to shorten.
    pub url: String,
}

/// What a [`ShortenPayload`] holds.
pub struct PayloadView {
    pub owner: Option<Seq<char>>,
    pub slug: Option<Seq<char>>,
    pub url: Seq<char>,
}

impl View for ShortenPayload {
    type V = PayloadView;

    open spec fn view(&self) -> PayloadView {
        PayloadView { owner: opt_view(self.owner), slug: opt_view(self.slug), url: self.url@ }
    }
}

/// Why no slug was allocated from the pool.
#[derive(Clone, Copy, Debug, PartialEq, Eq, Structural)]
pub enum Status {
    /// The pool was empty.
    NoSlug,
    /// Every slug taken from the pool was in the table already.
    DbConflict,
    /// A store failed.
    Other,
}

/// An allocation that failed.
#[derive(Clone, Copy, Debug, PartialEq, Eq, Structural)]
pub struct MiniErr {
    pub status: Status,
}

/// A store's reply to what was asked of it last.
#[derive(Debug, PartialEq, Eq)]
pub enum StoreReply {
    /// Nothing was asked yet.
    Nothing,
    /// To a pop: the slug that stood at the head of the pool, or none where the pool
    /// was empty.
    Popped(Result<Option<String>, StoreError>),
    /// To an insert that leaves existing rows alone: the number of rows written.
    Inserted(Result<u64, StoreError>),
}

/// What a [`StoreReply`] holds.
pub enum ReplyView {
    Nothing,
    Popped(Result<Option<Seq<char>>, StoreError>),
    Inserted(Result<u64, StoreError>),
}

impl View for StoreReply {
    type V = ReplyView;

    open spec fn view(&self) -> ReplyView {
        match *self {
            StoreReply::Nothing => ReplyView::Nothing,
            StoreReply::Popped(Ok(s)) => ReplyView::Popped(Ok(opt_view(s))),
            StoreReply::Popped(Err(e)) => ReplyView::Popped(Err(e)),
            StoreReply::Inserted(r) => ReplyView::Inserted(r),
        }
    }
}

/// Where an allocation from the pool stands: what it asks of the stores next, or
/// how it ended.
#[derive(Debug, PartialEq, Eq)]
pub enum PoolStep {
    /// Take the slug at the head of the pool. `attempt` slugs were taken before.
    Pop { attempt: usize },
    /// Insert `record`, leaving an existing row alone. Its slug is the one that pop
    /// number `attempt` gave, counted from 0.
    Insert { attempt: usize, record: SlugRecord },
    /// The allocation ended: with the slug that was inserted, or with the reason
    /// why none was.
    Done(Result<String, MiniErr>),
}

/// What a [`PoolStep`] holds.
pub enum PoolStepView {
    Pop { attempt: usize },
    Insert { attempt: usize, record: RecordView },
    Done(Result<Seq<char>, MiniErr>),
}

impl View for PoolStep {
    type V = PoolStepView;

    open spec fn view(&self) -> PoolStepView {
        match *self {
            PoolStep::Pop { attempt } => PoolStepView::Pop { attempt },
            PoolStep::Insert { attempt, record } => PoolStepView::Insert { attempt, record: record@ },
            PoolStep::Done(Ok(slug)) => PoolStepView::Done(Ok(slug@)),
            PoolStep::Done(Err(e)) => PoolStepView::Done(Err(e)),
        }
    }
}

/// The answer to a request to shorten a URL.
#[derive(Clone, Debug, PartialEq, Eq)]
pub struct ShortenResponse {
    pub status: StatusCode,
    /// The payload with the slug that was given: there where the status is 201.
    pub body: Option<ShortenPayload>,
    /// What is to be written to the key/value store once the answer is decided,
    /// without waiting for the outcome: there where the status is 201.
    pub write_through: Option<KvWrite>,
}

/// What a [`ShortenResponse`] holds.
pub struct ResponseView {
    pub status: StatusCode,
    pub body: Option<PayloadView>,
    pub write_through: Option<KvWriteView>,
}

impl View for ShortenResponse {
    type V = ResponseView;

    open spec fn view(&self) -> ResponseView {
        ResponseView {
            status: self.status,
            body: match self.body {
                Some(p) => Some(p@),
                None => None,
            },
            write_through: match self.write_through {
                Some(w) => Some(w@),
                None => None,
            },
        }
    }
}

/// Where the handling of a request stands: what it asks of the stores next, or its
/// answer.
#[derive(Debug, PartialEq, Eq)]
pub enum ShortenStep {
    /// The request came in; nothing was looked at yet.
    Start(ShortenPayload),
    /// Insert `record`, which has the caller's slug, leaving an existing row alone.
    InsertCustom(SlugRecord),
    /// A slug from the pool is being allocated for `payload`, whose URL was checked
    /// and normalised.
    Pool { payload: ShortenPayload, step: PoolStep },
    /// The request is answered.
    Respond(ShortenResponse),
}

/// What a [`ShortenStep`] holds.
pub enum ShortenStepView {
    Start(PayloadView),
    InsertCustom(RecordView),
    Pool { payload: PayloadView, step: PoolStepView },
    Respond(ResponseView),
}

impl View for ShortenStep {
    type V = ShortenStepView;

    open spec fn view(&self) -> ShortenStepView {
        match *self {
            ShortenStep::Start(p) => ShortenStepView::Start(p@),
            ShortenStep::InsertCustom(r) => ShortenStepView::InsertCustom(r@),
            ShortenStep::Pool { payload, step } => ShortenStepView::Pool {
                payload: payload@,
                step: step@,
            },
            ShortenStep::Respond(r) => ShortenStepView::Respond(r@),
        }
    }
}

// ---------------------------------------------------------------------------
// The row of an insert

/// The row that stands for `slug` with the given URL and owner.
pub open spec fn record_of(slug: Seq<char>, url: Seq<char>, owner: Option<Seq<char>>) -> RecordView {
    RecordView { first_char: first_char_of(slug), slug, url, owner }
}

/// Whether an insert that leaves existing rows alone wrote its row: it reports
/// one row. None means that the slug was in the table already.
pub open spec fn wrote_row(rows: u64) -> bool {
    rows == 1
}

/// The row that an insert for `slug` sends: see [`record_of`].
pub fn insert_slug(slug: String, url: &str, owner: &Option<String>) -> (record: SlugRecord)
    ensures
        record@ == record_of(slug@, url@, opt_view(*owner)),
{
    SlugRecord {
        first_char: first_char(slug.as_str()),
        slug,
        url: url.to_owned(),
        owner: copy_opt(owner),
    }
}

/// Whether an insert that reports `rows` rows wrote its row: see [`wrote_row`].
pub fn inserted(rows: u64) -> (yes: bool)
    ensures
        yes == wrote_row(rows),
{
    rows == 1
}

// ---------------------------------------------------------------------------
// Allocation from the pool

/// The step that follows `pending` in an allocation for `payload`, once the stores
/// replied with `reply`.
///
/// A pop that gives a slug is followed by the insert of that slug; one that finds
/// the pool empty ends the allocation with `NoSlug`. An insert that wrote its row
/// ends it with the slug; one that found the slug taken is followed by the next
/// pop, or, after [`MAX_ATTEMPTS`] slugs, by the end with `DbConflict`. A store
/// that failed, or a reply to something that was not asked, ends it with `Other`.
pub open spec fn pool_next(payload: PayloadView, pending: PoolStepView, reply: ReplyView) -> PoolStepView {
    match pending {
        PoolStepView::Pop { attempt } => match reply {
            ReplyView::Popped(Ok(Some(slug))) => PoolStepView::Insert {
                attempt,
                record: record_of(slug, payload.url, payload.owner),
            },
            ReplyView::Popped(Ok(None)) => PoolStepView::Done(Err(MiniErr { status: Status::NoSlug })),
            _ => PoolStepView::Done(Err(MiniErr { status: Status::Other })),
        },
        PoolStepView::Insert { attempt, record } => match reply {
            ReplyView::Inserted(Ok(rows)) => if wrote_row(rows) {
                PoolStepView::Done(Ok(record.slug))
            } else if attempt + 1 < MAX_ATTEMPTS {
                PoolStepView::Pop { attempt: (attempt + 1) as usize }
            } else {
                PoolStepView::Done(Err(MiniErr { status: Status::DbConflict }))
            },
            _ => PoolStepView::Done(Err(MiniErr { status: Status::Other })),
        },
        PoolStepView::Done(r) => PoolStepView::Done(r),
    }
}

impl PoolStep {
    /// The first step of every allocation: the first pop.
    pub fn first() -> (step: PoolStep)
        ensures
            step@ == (PoolStepView::Pop { attempt: 0 }),
    {
        PoolStep::Pop { attempt: 0 }
    }
}

/// Takes an allocation from the pool one step further: see [`pool_next`].
pub fn allocate_mini_slug(payload: &ShortenPayload, pending: PoolStep, reply: StoreReply) -> (next:
    PoolStep)
    ensures
        next@ == pool_next(payload@, pending@, reply@),
{
    match pending {
        PoolStep::Pop { attempt } => match reply {
            StoreReply::Popped(Ok(Some(slug))) => PoolStep::Insert {
                attempt,
                record: insert_slug(slug, payload.url.as_str(), &payload.owner),
            },
            StoreReply::Popped(Ok(None)) => PoolStep::Done(Err(MiniErr { status: Status::NoSlug })),
            _ => PoolStep::Done(Err(MiniErr { status: Status::Other })),
        },
        PoolStep::Insert { attempt, record } => match reply {
            StoreReply::Inserted(Ok(rows)) => if inserted(rows) {
                PoolStep::Done(Ok(record.slug))
            } else if attempt < MAX_ATTEMPTS - 1 {
                PoolStep::Pop { attempt: attempt + 1 }
            } else {
                PoolStep::Done(Err(MiniErr { status: Status::DbConflict }))
            },
            _ => PoolStep::Done(Err(MiniErr { status: Status::Other })),
        },
        PoolStep::Done(r) => PoolStep::Done(r),
    }
}

// ---------------------------------------------------------------------------
// The handler

/// The status that answers an allocation that failed: 409 where every slug was
/// taken, 503 where the pool was empty or a store failed.
pub open spec fn status_of(e: MiniErr) -> StatusCode {
    match e.status {
        Status::NoSlug => StatusCode::ServiceUnavailable,
        Status::DbConflict => StatusCode::Conflict,
        Status::Other => StatusCode::ServiceUnavailable,
    }
}

/// An answer that carries a status and nothing else.
pub open spec fn refusal(status: StatusCode) -> ResponseView {
    ResponseView { status, body: None, write_through: None }
}

/// The answer to a request whose row was written: 201 with the payload that names
/// the slug, and the slug with its URL to be written to the key/value store.
pub open spec fn created(record: RecordView) -> ResponseView {
    ResponseView {
        status: StatusCode::Created,
        body: Some(PayloadView { owner: record.owner, slug: Some(record.slug), url: record.url }),
        write_through: Some(KvWriteView { key: record.slug, value: record.url }),
    }
}

/// The first step for a request whose URL was parsed, `target` being what
/// [`target_of`] makes of it.
///
/// 400 where the URL is no absolute URL with scheme `http` or `https`, or the
/// caller's slug has not 3 to 256 bytes. Else the insert of the caller's slug, or,
/// where the caller chose none, the first pop from the pool.
pub open spec fn checked(payload: PayloadView, target: Option<Seq<char>>) -> ShortenStepView {
    match target {
        None => ShortenStepView::Respond(refusal(StatusCode::BadRequest)),
        Some(url) => match payload.slug {
            Some(slug) => if valid_length(slug) {
                ShortenStepView::InsertCustom(record_of(slug, url, payload.owner))
            } else {
                ShortenStepView::Respond(refusal(StatusCode::BadRequest))
            },
            None => ShortenStepView::Pool {
                payload: PayloadView { owner: payload.owner, slug: None, url },
                step: PoolStepView::Pop { attempt: 0 },
            },
        },
    }
}

/// What follows one step of an allocation inside the handling of a request: the
/// answer where the allocation ended, else the allocation's own next step.
pub open spec fn after_pool(payload: PayloadView, step: PoolStepView) -> ShortenStepView {
    match step {
        PoolStepView::Done(Ok(slug)) => ShortenStepView::Respond(
            created(record_of(slug, payload.url, payload.owner)),
        ),
        PoolStepView::Done(Err(e)) => ShortenStepView::Respond(refusal(status_of(e))),
        _ => ShortenStepView::Pool { payload, step },
    }
}

/// The step that follows `pending` in the handling of a request, once the stores
/// replied with `reply`.
///
/// A request that came in is checked: see [`checked`]. The insert of a caller's
/// slug is answered with 201 where it wrote its row, with 409 where the slug was
/// taken, with 503 where the store failed or replied to something else. An
/// allocation from the pool goes on as [`pool_next`] says, and its end is answered:
/// see [`after_pool`]. An answer stays.
pub open spec fn shorten_next(pending: ShortenStepView, reply: ReplyView) -> ShortenStepView {
    match pending {
        ShortenStepView::Start(payload) => checked(payload, target_of(url_parts(payload.url))),
        ShortenStepView::InsertCustom(record) => match reply {
            ReplyView::Inserted(Ok(rows)) => if wrote_row(rows) {
                ShortenStepView::Respond(created(record))
            } else {
                ShortenStepView::Respond(refusal(StatusCode::Conflict))
            },
            _ => ShortenStepView::Respond(refusal(StatusCode::ServiceUnavailable)),
        },
        ShortenStepView::Pool { payload, step } => after_pool(payload, pool_next(payload, step, reply)),
        ShortenStepView::Respond(r) => ShortenStepView::Respond(r),
    }
}

/// The status that answers an allocation that failed: see [`status_of`].
pub fn status_for(e: MiniErr) -> (status: StatusCode)
    ensures
        status == status_of(e),
{
    match e.status {
        Status::NoSlug => StatusCode::ServiceUnavailable,
        Status::DbConflict => StatusCode::Conflict,
        Status::Other => StatusCode::ServiceUnavailable,
    }
}

/// An answer that carries `status` and nothing else.
pub fn refuse(status: StatusCode) -> (out: ShortenResponse)
    ensures
        out@ == refusal(status),
{
    ShortenResponse { status, body: None, write_through: None }
}

/// The answer to a request whose row `record` was written: see [`created`].
pub fn accept(record: SlugRecord) -> (out: ShortenResponse)
    ensures
        out@ == created(record@),
{
    let write = KvWrite { key: record.slug.clone(), value: record.url.clone() };
    ShortenResponse {
        status: StatusCode::Created,
        body: Some(ShortenPayload { owner: record.owner, slug: Some(record.slug), url: record.url }),
        write_through: Some(write),
    }
}

/// The first step for a request whose URL was parsed: see [`checked`].
pub fn check_payload(payload: ShortenPayload, target: Option<String>) -> (step: ShortenStep)
    ensures
        step@ == checked(payload@, opt_view(target)),
{
    match target {
        None => ShortenStep::Respond(refuse(StatusCode::BadRequest)),
        Some(url) => match payload.slug {
            Some(slug) => if has_valid_length(slug.as_str()) {
                ShortenStep::InsertCustom(insert_slug(slug, url.as_str(), &payload.owner))
            } else {
                ShortenStep::Respond(refuse(StatusCode::BadRequest))
            },
            None => ShortenStep::Pool {
                payload: ShortenPayload { owner: payload.owner, slug: None, url },
                step: PoolStep::first(),
            },
        },
    }
}

/// What follows one step of an allocation inside the handling of a request: see
/// [`after_pool`].
pub fn continue_pool(payload: ShortenPayload, step: PoolStep) -> (next: ShortenStep)
    ensures
        next@ == after_pool(payload@, step@),
{
    match step {
        PoolStep::Done(Ok(slug)) => ShortenStep::Respond(
            accept(insert_slug(slug, payload.url.as_str(), &payload.owner)),
        ),
        PoolStep::Done(Err(e)) => ShortenStep::Respond(refuse(status_for(e))),
        _ => ShortenStep::Pool { payload, step },
    }
}

/// Takes the handling of a request one step further: see [`shorten_next`].
pub fn handle_shorten_post(pending: ShortenStep, reply: StoreReply) -> (next: ShortenStep)
    ensures
        next@ == shorten_next(pending@, reply@),
{
    match pending {
        ShortenStep::Start(payload) => {
            let target = parse_target(payload.url.as_str());
            check_payload(payload, target)
        },
        ShortenStep::InsertCustom(record) => match reply {
            StoreReply::Inserted(Ok(rows)) => if inserted(rows) {
                ShortenStep::Respond(accept(record))
            } else {
                ShortenStep::Respond(refuse(StatusCode::Conflict))
            },
            _ => ShortenStep::Respond(refuse(StatusCode::ServiceUnavailable)),
        },
        ShortenStep::Pool { payload, step } => {
            let step = allocate_mini_slug(&payload, step, reply);
            continue_pool(payload, step)
        },
        ShortenStep::Respond(r) => ShortenStep::Respond(r),
    }
}

} // verus!
