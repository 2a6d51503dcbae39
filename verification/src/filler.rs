//! The filler: on every tick it looks at the pool of slugs and, where the pool is
//! short, adds a batch of fresh random slugs that the table does not hold.
//!
//! The stores are reached by the caller. [`refill`] takes what is pending and the
//! store's reply, and says what is to be done next.

use rand::distr::Uniform;
use rand::rngs::ThreadRng;
use rand::Rng;
use vstd::prelude::*;
use vstd::string::*;
use crate::slug::{is_generated, is_symbol, spelled, symbol, symbol_at, ALPHABET_LEN};
use crate::store::StoreError;
use crate::text::{push_char, same_text, views};

verus! {

/// Milliseconds between two ticks.
pub const TICK_MILLIS: u64 = 250;

/// Part of the pool's target that one batch holds: a tenth.
pub const BATCH_DIVISOR: usize = 10;

/// The thread's random number generator of the crate `rand`.
#[verifier::external_type_specification]
#[verifier::external_body]
pub struct ExThreadRng(ThreadRng);

/// `rand::rng`: the handle of the calling thread's generator.
#[verifier::external_body]
fn thread_rng() -> ThreadRng {
    rand::rng()
}

/// `rand::Rng::sample` with `rand::distr::Uniform::new(0, bound)`: a number of
/// the half-open range from 0 to `bound`. Which one is left open.
#[verifier::external_body]
fn sample_below(rng: &mut ThreadRng, bound: usize) -> (i: usize)
    requires
        bound > 0,
    ensures
        i < bound,
{
    rng.sample(Uniform::new(0, bound).unwrap())
}

/// Where random slugs come from.
pub struct SlugSource {
    rng: ThreadRng,
}

/// How the filler is set up.
#[derive(Clone, Copy, Debug, PartialEq, Eq, Structural)]
pub struct FillerConfig {
    /// Number of slugs that the pool should hold.
    pub queue_size: usize,
    /// Number of symbols in each generated slug.
    pub slug_len: usize,
    /// Number of candidates in each batch.
    pub batch_size: usize,
}

impl FillerConfig {
    /// The setup for a pool of `queue_size` slugs of `slug_len` symbols: a batch is
    /// a tenth of the pool's target, rounded down.
    pub fn new(queue_size: usize, slug_len: usize) -> (config: FillerConfig)
        ensures
            config.queue_size == queue_size,
            config.slug_len == slug_len,
            config.batch_size == queue_size / BATCH_DIVISOR,
    {
        FillerConfig { queue_size, slug_len, batch_size: queue_size / BATCH_DIVISOR }
    }
}

/// A store's reply to what the filler asked of it last.
#[derive(Debug, PartialEq, Eq)]
pub enum FillReply {
    /// Nothing was asked yet.
    Nothing,
    /// To the question for the pool's length.
    Length(Result<usize, StoreError>),
    /// To the question which candidates the table holds: those it holds.
    Taken(Result<Vec<String>, StoreError>),
    /// To the append.
    Pushed(Result<(), StoreError>),
}

/// What a [`FillReply`] holds.
pub enum FillReplyView {
    Nothing,
    Length(Result<usize, StoreError>),
    Taken(Result<Seq<Seq<char>>, StoreError>),
    Pushed(Result<(), StoreError>),
}

impl View for FillReply {
    type V = FillReplyView;

    open spec fn view(&self) -> FillReplyView {
        match *self {
            FillReply::Nothing => FillReplyView::Nothing,
            FillReply::Length(r) => FillReplyView::Length(r),
            FillReply::Taken(Ok(v)) => FillReplyView::Taken(Ok(views(v@))),
            FillReply::Taken(Err(e)) => FillReplyView::Taken(Err(e)),
            FillReply::Pushed(r) => FillReplyView::Pushed(r),
        }
    }
}

/// Where a tick stands: what it asks of the stores next, or how it ended.
#[derive(Debug, PartialEq, Eq)]
pub enum FillStep {
    /// Ask for the pool's length.
    QueryLength,
    /// Ask which of these candidates the table holds.
    Filter(Vec<String>),
    /// Append these slugs to the tail of the pool, in this order.
    Push(Vec<String>),
    /// The tick is over: with the number of slugs that it added, or skipped
    /// because a store failed.
    Done(Result<usize, StoreError>),
}

/// What a [`FillStep`] holds.
pub enum FillStepView {
    QueryLength,
    Filter(Seq<Seq<char>>),
    Push(Seq<Seq<char>>),
    Done(Result<usize, StoreError>),
}

impl View for FillStep {
    type V = FillStepView;

    open spec fn view(&self) -> FillStepView {
        match *self {
            FillStep::QueryLength => FillStepView::QueryLength,
            FillStep::Filter(v) => FillStepView::Filter(views(v@)),
            FillStep::Push(v) => FillStepView::Push(views(v@)),
            FillStep::Done(r) => FillStepView::Done(r),
        }
    }
}

// ---------------------------------------------------------------------------
// Candidates

/// Whether `batch` is one that a tick may generate under `config`: as many
/// candidates as a batch has, each of the configured length and written in the
/// alphabet.
pub open spec fn is_batch(batch: Seq<Seq<char>>, config: FillerConfig) -> bool {
    &&& batch.len() == config.batch_size
    &&& forall|i: int|
        0 <= i < batch.len() ==> (#[trigger] batch[i]).len() == config.slug_len && is_generated(
            batch[i],
        )
}

/// The candidates of `batch` that `taken` does not hold, in their order.
pub open spec fn survivors(batch: Seq<Seq<char>>, taken: Seq<Seq<char>>) -> Seq<Seq<char>> {
    batch.filter(|s: Seq<char>| !taken.contains(s))
}

/// The slug that `positions` spell in the alphabet.
pub fn spell(positions: &Vec<usize>) -> (slug: String)
    requires
        forall|i: int| 0 <= i < positions.len() ==> positions[i] < ALPHABET_LEN,
    ensures
        slug@ == spelled(positions@),
        is_generated(slug@),
{
    let mut slug = String::new();
    let mut i: usize = 0;
    while i < positions.len()
        invariant
            i <= positions.len(),
            forall|k: int| 0 <= k < positions.len() ==> positions[k] < ALPHABET_LEN,
            slug@ == spelled(positions@.take(i as int)),
        decreases positions.len() - i,
    {
        assert(positions@.take(i + 1) == positions@.take(i as int).push(positions[i as int]));
        push_char(&mut slug, symbol(positions[i]));
        i = i + 1;
    }
    assert(positions@.take(positions.len() as int) == positions@);
    assert forall|k: int| 0 <= k < slug@.len() implies is_symbol(#[trigger] slug@[k]) by {
        assert(slug@[k] == symbol_at(positions[k] as int));
    }
    slug
}

/// Whether `list` holds a string with the characters of `text`.
pub fn holds(list: &Vec<String>, text: &str) -> (yes: bool)
    ensures
        yes == views(list@).contains(text@),
{
    let mut i: usize = 0;
    while i < list.len()
        invariant
            i <= list.len(),
            forall|k: int| 0 <= k < i ==> views(list@)[k] != text@,
        decreases list.len() - i,
    {
        if same_text(list[i].as_str(), text) {
            assert(views(list@)[i as int] == text@);
            return true;
        }
        i = i + 1;
    }
    false
}

/// The candidates of `batch` that `taken` does not hold, in their order: see
/// [`survivors`].
pub fn remove_taken(batch: Vec<String>, taken: &Vec<String>) -> (kept: Vec<String>)
    ensures
        views(kept@) == survivors(views(batch@), views(taken@)),
{
    let ghost keep = |s: Seq<char>| !views(taken@).contains(s);
    let mut kept: Vec<String> = Vec::new();
    let mut i: usize = 0;
    assert(views(batch@).take(0) =~= Seq::<Seq<char>>::empty());
    assert(views(kept@) =~= Seq::<Seq<char>>::empty());
    while i < batch.len()
        invariant
            i <= batch.len(),
            keep == |s: Seq<char>| !views(taken@).contains(s),
            views(kept@) == views(batch@).take(i as int).filter(keep),
        decreases batch.len() - i,
    {
        let ghost before = views(batch@).take(i as int);
        let ghost old_kept = views(kept@);
        proof {
            assert(views(batch@).take(i + 1) == before.push(batch[i as int]@));
            assert(before.push(batch[i as int]@).drop_last() == before);
            reveal(Seq::filter);
        }
        if !holds(taken, batch[i].as_str()) {
            kept.push(batch[i].clone());
            assert(views(kept@) == old_kept.push(batch[i as int]@));
        }
        i = i + 1;
    }
    assert(views(batch@).take(batch.len() as int) == views(batch@));
    kept
}

impl SlugSource {
    /// A source that draws from the calling thread's generator.
    pub fn new() -> SlugSource {
        SlugSource { rng: thread_rng() }
    }

    /// `len` positions in the alphabet, each drawn on its own.
    pub fn draw_positions(&mut self, len: usize) -> (positions: Vec<usize>)
        ensures
            positions.len() == len,
            forall|i: int| 0 <= i < positions.len() ==> positions[i] < ALPHABET_LEN,
    {
        let mut positions: Vec<usize> = Vec::new();
        let mut i: usize = 0;
        while i < len
            invariant
                i <= len,
                positions.len() == i,
                forall|k: int| 0 <= k < positions.len() ==> positions[k] < ALPHABET_LEN,
            decreases len - i,
        {
            positions.push(sample_below(&mut self.rng, ALPHABET_LEN));
            i = i + 1;
        }
        positions
    }

    /// A random slug of `len` symbols of the alphabet.
    pub fn random_slug(&mut self, len: usize) -> (slug: String)
        ensures
            slug@.len() == len,
            is_generated(slug@),
    {
        let positions = self.draw_positions(len);
        spell(&positions)
    }

    /// A batch of random candidates as `config` asks for.
    pub fn random_batch(&mut self, config: &FillerConfig) -> (batch: Vec<String>)
        ensures
            is_batch(views(batch@), *config),
    {
        let mut batch: Vec<String> = Vec::new();
        let mut i: usize = 0;
        while i < config.batch_size
            invariant
                i <= config.batch_size,
                batch.len() == i,
                forall|k: int|
                    0 <= k < batch.len() ==> (#[trigger] views(batch@)[k]).len() == config.slug_len
                        && is_generated(views(batch@)[k]),
            decreases config.batch_size - i,
        {
            let ghost before = views(batch@);
            let slug = self.random_slug(config.slug_len);
            batch.push(slug);
            assert(views(batch@) == before.push(slug@));
            i = i + 1;
        }
        batch
    }
}

// ---------------------------------------------------------------------------
// The tick

/// What follows the check of `batch` against the table, which holds `taken` of it:
/// the append of the candidates that are left, or, where none is left, the end of
/// the tick with nothing added.
pub open spec fn filtered(batch: Seq<Seq<char>>, taken: Seq<Seq<char>>) -> FillStepView {
    if survivors(batch, taken).len() == 0 {
        FillStepView::Done(Ok(0))
    } else {
        FillStepView::Push(survivors(batch, taken))
    }
}

/// The step that follows `pending` once the stores replied with `reply`, where
/// that is decided by the two alone; nothing where a fresh batch is to be drawn.
///
/// A pool that holds its target or more ends the tick with nothing added; a pool
/// that holds less calls for a fresh batch, which is then checked against the
/// table. The candidates that the table does not hold are appended; where none is
/// left, the tick ends with nothing added. After the append the tick ends with the
/// number of slugs added. A store that failed, or a reply to something that was not
/// asked, ends the tick as skipped.
pub open spec fn fill_next(config: FillerConfig, pending: FillStepView, reply: FillReplyView) -> Option<
    FillStepView,
> {
    match pending {
        FillStepView::QueryLength => match reply {
            FillReplyView::Length(Ok(len)) => if len >= config.queue_size {
                Some(FillStepView::Done(Ok(0)))
            } else {
                None
            },
            _ => Some(FillStepView::Done(Err(StoreError))),
        },
        FillStepView::Filter(batch) => match reply {
            FillReplyView::Taken(Ok(taken)) => Some(filtered(batch, taken)),
            _ => Some(FillStepView::Done(Err(StoreError))),
        },
        FillStepView::Push(batch) => match reply {
            FillReplyView::Pushed(Ok(_)) => Some(FillStepView::Done(Ok(batch.len() as usize))),
            _ => Some(FillStepView::Done(Err(StoreError))),
        },
        FillStepView::Done(r) => Some(FillStepView::Done(r)),
    }
}

/// What follows the check of `batch` against the table, which holds `taken` of it:
/// see [`filtered`].
pub fn after_filter(batch: Vec<String>, taken: &Vec<String>) -> (next: FillStep)
    ensures
        next@ == filtered(views(batch@), views(taken@)),
{
    let kept = remove_taken(batch, taken);
    if kept.len() == 0 {
        FillStep::Done(Ok(0))
    } else {
        FillStep::Push(kept)
    }
}

/// Takes a tick one step further.
///
/// Where [`fill_next`] decides the step, it is that step. Where a fresh batch is to
/// be drawn, the step is the check of a batch as `config` asks for, drawn from
/// `source`.
pub fn refill(source: &mut SlugSource, config: &FillerConfig, pending: FillStep, reply: FillReply) -> (next:
    FillStep)
    ensures
        match fill_next(*config, pending@, reply@) {
            Some(step) => next@ == step,
            None => next@ matches FillStepView::Filter(batch) && is_batch(batch, *config),
        },
{
    match pending {
        FillStep::QueryLength => match reply {
            FillReply::Length(Ok(len)) => if len >= config.queue_size {
                FillStep::Done(Ok(0))
            } else {
                FillStep::Filter(source.random_batch(config))
            },
            _ => FillStep::Done(Err(StoreError)),
        },
        FillStep::Filter(batch) => match reply {
            FillReply::Taken(Ok(taken)) => after_filter(batch, &taken),
            _ => FillStep::Done(Err(StoreError)),
        },
        FillStep::Push(batch) => match reply {
            FillReply::Pushed(Ok(_)) => FillStep::Done(Ok(batch.len())),
            _ => FillStep::Done(Err(StoreError)),
        },
        FillStep::Done(r) => FillStep::Done(r),
    }
}

} // verus!
