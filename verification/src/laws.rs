//! The services run against the model of the stores, and what holds of such runs.
//!
//! A run hands each step's question to stores that answer as the model says, and
//! goes on with the step that the services' own functions name next.

use vstd::prelude::*;
use crate::filler::{filtered, survivors, FillStepView};
use crate::http::StatusCode;
use crate::link::{target_of, url_parts};
use crate::model::{
    all_permitted, answers_filter, apply, apply_all, cache_agrees, has_slug, insert_row, kv_agrees,
    lemma_insert_keeps_rows, lemma_insert_url, lemma_kv_stays_agreed, lemma_rows_stay,
    lemma_slugs_stay_unique, unique_slugs,
    lemma_url_of_known, permitted, rows_written, select_urls, url_of, Op, World,
};
use crate::reader::{
    lookup_next, lookup_stored, may_answer, redirect_for, LiveReplyView, LiveStepView, RedirectView,
    LookupStepView, ResolutionView,
};
use crate::slug::valid_length;
use crate::store::{KvWriteView, RecordView, StoreError};
use crate::writer::{
    created, record_of, refusal, shorten_next, PayloadView, PoolStepView, ReplyView, ResponseView,
    ShortenStepView, MAX_ATTEMPTS,
};

verus! {

// ---------------------------------------------------------------------------
// Runs of the write path

/// What the stores reply to the question of `step`.
pub open spec fn shorten_reply(w: World, step: ShortenStepView) -> ReplyView {
    match step {
        ShortenStepView::InsertCustom(record) => ReplyView::Inserted(Ok(rows_written(w.table, record))),
        ShortenStepView::Pool { payload, step: PoolStepView::Insert { attempt, record } } => ReplyView::Inserted(
            Ok(rows_written(w.table, record)),
        ),
        ShortenStepView::Pool { payload, step: PoolStepView::Pop { attempt } } => ReplyView::Popped(
            Ok(
                if w.queue.len() > 0 {
                    Some(w.queue[0])
                } else {
                    None
                },
            ),
        ),
        _ => ReplyView::Nothing,
    }
}

/// How the stores stand after the question of `step`.
pub open spec fn shorten_effect(w: World, step: ShortenStepView) -> World {
    match step {
        ShortenStepView::InsertCustom(record) => apply(w, Op::Insert(record)),
        ShortenStepView::Pool { payload, step: PoolStepView::Insert { attempt, record } } => apply(
            w,
            Op::Insert(record),
        ),
        ShortenStepView::Pool { payload, step: PoolStepView::Pop { attempt } } => apply(w, Op::Pop),
        _ => w,
    }
}

/// The handling of a request from `step` on, for at most `fuel` steps: the stores
/// at the end, and the step reached.
pub open spec fn shorten_run(w: World, step: ShortenStepView, fuel: nat) -> (World, ShortenStepView)
    decreases fuel,
{
    if fuel == 0 || step is Respond {
        (w, step)
    } else {
        shorten_run(
            shorten_effect(w, step),
            shorten_next(step, shorten_reply(w, step)),
            (fuel - 1) as nat,
        )
    }
}

/// Number of steps within which every request is answered: the check, then a pop
/// and an insert for each attempt.
pub open spec fn shorten_steps() -> nat {
    (1 + 2 * MAX_ATTEMPTS) as nat
}

/// The handling of a request with body `payload` against the stores `w`: the
/// stores at the end, and the step reached.
pub open spec fn shortened(w: World, payload: PayloadView) -> (World, ShortenStepView) {
    shorten_run(w, ShortenStepView::Start(payload), shorten_steps())
}

/// Number of slugs at the head of `queue`, among the first `limit`, for which
/// `table` has a row already.
pub open spec fn leading_stale(table: Seq<RecordView>, queue: Seq<Seq<char>>, limit: nat) -> nat
    decreases limit,
{
    if limit == 0 || queue.len() == 0 || !has_slug(table, queue[0]) {
        0
    } else {
        1 + leading_stale(table, queue.drop_first(), (limit - 1) as nat)
    }
}

/// The slugs counted by [`leading_stale`] are in the table, and the one after
/// them, if it is among the first `limit`, is not.
pub proof fn lemma_leading_stale(table: Seq<RecordView>, queue: Seq<Seq<char>>, limit: nat)
    ensures
        leading_stale(table, queue, limit) <= limit,
        leading_stale(table, queue, limit) <= queue.len(),
        forall|i: int|
            0 <= i < leading_stale(table, queue, limit) ==> has_slug(table, #[trigger] queue[i]),
        leading_stale(table, queue, limit) < limit && leading_stale(table, queue, limit)
            < queue.len() ==> !has_slug(table, queue[leading_stale(table, queue, limit) as int]),
    decreases limit,
{
    if limit == 0 || queue.len() == 0 || !has_slug(table, queue[0]) {
    } else {
        let rest = queue.drop_first();
        lemma_leading_stale(table, rest, (limit - 1) as nat);
        let k = leading_stale(table, rest, (limit - 1) as nat);
        assert forall|i: int| 0 <= i < k + 1 implies has_slug(table, #[trigger] queue[i]) by {
            if i > 0 {
                assert(queue[i] == rest[i - 1]);
            }
        }
        if k < limit - 1 && k < rest.len() {
            assert(queue[k as int + 1] == rest[k as int]);
        }
    }
}

/// How an allocation from the pool ends, `attempt` slugs having been taken before:
/// the stores at the end and the answer.
///
/// With `k` the number of slugs at the head of the pool that the table holds
/// already, among as many as this request may still take: where that is all it may
/// take, the answer is 409; where the pool holds no more than these, it is 503;
/// else it is 201 with the slug that follows them, whose row is added to the table.
/// The slugs taken are gone from the pool.
pub open spec fn pool_outcome(w: World, payload: PayloadView, attempt: nat) -> (World, ResponseView) {
    let limit = (MAX_ATTEMPTS - attempt) as nat;
    let k = leading_stale(w.table, w.queue, limit);
    if k == limit {
        (World { queue: w.queue.skip(k as int), ..w }, refusal(StatusCode::Conflict))
    } else if k == w.queue.len() {
        (World { queue: w.queue.skip(k as int), ..w }, refusal(StatusCode::ServiceUnavailable))
    } else {
        let record = record_of(w.queue[k as int], payload.url, payload.owner);
        (
            World { table: w.table.push(record), queue: w.queue.skip(k as int + 1), ..w },
            created(record),
        )
    }
}

proof fn lemma_pool_run(w: World, payload: PayloadView, attempt: nat, fuel: nat)
    requires
        attempt < MAX_ATTEMPTS,
        fuel >= 2 * (MAX_ATTEMPTS - attempt),
    ensures
        shorten_run(
            w,
            ShortenStepView::Pool { payload, step: PoolStepView::Pop { attempt: attempt as usize } },
            fuel,
        ) == (pool_outcome(w, payload, attempt).0, ShortenStepView::Respond(pool_outcome(w, payload, attempt).1)),
    decreases MAX_ATTEMPTS - attempt,
{
    let limit = (MAX_ATTEMPTS - attempt) as nat;
    let pop = ShortenStepView::Pool { payload, step: PoolStepView::Pop { attempt: attempt as usize } };
    let k = leading_stale(w.table, w.queue, limit);
    reveal_with_fuel(shorten_run, 3);
    if w.queue.len() == 0 {
        assert(w.queue.skip(0) =~= w.queue);
    } else {
        let slug = w.queue[0];
        let w1 = World { queue: w.queue.drop_first(), ..w };
        let record = record_of(slug, payload.url, payload.owner);
        let insert = ShortenStepView::Pool {
            payload,
            step: PoolStepView::Insert { attempt: attempt as usize, record },
        };
        assert(shorten_effect(w, pop) == w1);
        assert(shorten_next(pop, shorten_reply(w, pop)) == insert);
        assert(w.queue.drop_first() =~= w.queue.skip(1));
        if !has_slug(w.table, slug) {
            assert(k == 0);
            assert(shorten_effect(w1, insert) == World { table: w.table.push(record), ..w1 });
        } else {
            assert(shorten_effect(w1, insert) == w1);
            if attempt + 1 < MAX_ATTEMPTS {
                lemma_pool_run(w1, payload, attempt + 1, (fuel - 2) as nat);
                let k1 = leading_stale(w1.table, w1.queue, (limit - 1) as nat);
                assert(k == k1 + 1);
                lemma_leading_stale(w1.table, w1.queue, (limit - 1) as nat);
                assert(w1.queue.skip(k1 as int) =~= w.queue.skip(k as int));
                if k1 < w1.queue.len() {
                    assert(w1.queue.skip(k1 as int + 1) =~= w.queue.skip(k as int + 1));
                    assert(w1.queue[k1 as int] == w.queue[k as int]);
                }
            } else {
                assert(limit == 1);
                assert(leading_stale(w1.table, w1.queue, 0) == 0);
                assert(k == 1);
            }
        }
    }
}

/// How the handling of a request ends: when it is refused, and which answer it
/// gets on either path.
///
/// A request whose URL is no absolute `http` or `https` URL, or whose own slug has
/// a length outside 3 to 256 bytes, is answered with 400 and nothing is asked of
/// the stores. A request with its own slug is answered with 201 where the table has
/// no row for the slug, and with 409 where it has one. A request without a slug
/// takes slugs from the head of the pool as long as the table holds them already:
/// see [`pool_outcome`].
pub proof fn lemma_shortened(w: World, payload: PayloadView)
    ensures
        shortened(w, payload).1 is Respond,
        shortened(w, payload).0.kv == w.kv,
        match target_of(url_parts(payload.url)) {
            None => shortened(w, payload) == (w, ShortenStepView::Respond(refusal(StatusCode::BadRequest))),
            Some(url) => match payload.slug {
                Some(slug) => if !valid_length(slug) {
                    shortened(w, payload) == (
                        w,
                        ShortenStepView::Respond(refusal(StatusCode::BadRequest)),
                    )
                } else if has_slug(w.table, slug) {
                    shortened(w, payload) == (w, ShortenStepView::Respond(refusal(StatusCode::Conflict)))
                } else {
                    shortened(w, payload) == (
                        World { table: w.table.push(record_of(slug, url, payload.owner)), ..w },
                        ShortenStepView::Respond(created(record_of(slug, url, payload.owner))),
                    )
                },
                None => shortened(w, payload) == (
                    pool_outcome(w, PayloadView { owner: payload.owner, slug: None, url }, 0).0,
                    ShortenStepView::Respond(
                        pool_outcome(w, PayloadView { owner: payload.owner, slug: None, url }, 0).1,
                    ),
                ),
            },
        },
{
    reveal_with_fuel(shorten_run, 3);
    let start = ShortenStepView::Start(payload);
    match target_of(url_parts(payload.url)) {
        None => {},
        Some(url) => match payload.slug {
            Some(slug) => {},
            None => {
                let checked = PayloadView { owner: payload.owner, slug: None, url };
                lemma_pool_run(w, checked, 0, (shorten_steps() - 1) as nat);
            },
        },
    }
}

proof fn lemma_apply_first(w: World, op: Op, ops: Seq<Op>)
    ensures
        apply_all(w, seq![op] + ops) == apply_all(apply(w, op), ops),
        all_permitted(w, seq![op] + ops) == (permitted(w, op) && all_permitted(apply(w, op), ops)),
    decreases ops.len(),
{
    let all = seq![op] + ops;
    if ops.len() == 0 {
        assert(all.drop_last() =~= Seq::<Op>::empty());
        assert(all.last() == op);
        assert(apply_all(w, all.drop_last()) == w);
        assert(all_permitted(w, all.drop_last()));
        assert(all_permitted(w, all) == permitted(w, op));
        assert(all_permitted(apply(w, op), ops));
    } else {
        let shorter = seq![op] + ops.drop_last();
        assert(all.drop_last() =~= shorter);
        assert(all.last() == ops.last());
        lemma_apply_first(w, op, ops.drop_last());
        assert(all_permitted(w, all) == (all_permitted(w, shorter) && permitted(
            apply_all(w, shorter),
            ops.last(),
        )));
        assert(all_permitted(apply(w, op), ops) == (all_permitted(apply(w, op), ops.drop_last())
            && permitted(apply_all(apply(w, op), ops.drop_last()), ops.last())));
    }
}

/// The handling of a request does to the stores what a sequence of inserts and pops
/// does, each permitted: the sequence is the result.
pub proof fn lemma_run_is_operations(w: World, step: ShortenStepView, fuel: nat) -> (ops: Seq<Op>)
    ensures
        shorten_run(w, step, fuel).0 == apply_all(w, ops),
        all_permitted(w, ops),
    decreases fuel,
{
    if fuel == 0 || step is Respond {
        Seq::empty()
    } else {
        let after = shorten_effect(w, step);
        let next = shorten_next(step, shorten_reply(w, step));
        let rest = lemma_run_is_operations(after, next, (fuel - 1) as nat);
        match step {
            ShortenStepView::InsertCustom(record) => {
                lemma_apply_first(w, Op::Insert(record), rest);
                seq![Op::Insert(record)] + rest
            },
            ShortenStepView::Pool { payload, step: PoolStepView::Insert { attempt, record } } => {
                lemma_apply_first(w, Op::Insert(record), rest);
                seq![Op::Insert(record)] + rest
            },
            ShortenStepView::Pool { payload, step: PoolStepView::Pop { attempt } } => {
                lemma_apply_first(w, Op::Pop, rest);
                seq![Op::Pop] + rest
            },
            _ => rest,
        }
    }
}

/// No request brings a second row for a slug into the table, whatever it asks for
/// and however the stores stand.
pub proof fn lemma_requests_keep_slugs_unique(w: World, payload: PayloadView)
    requires
        unique_slugs(w.table),
    ensures
        unique_slugs(shortened(w, payload).0.table),
{
    let ops = lemma_run_is_operations(w, ShortenStepView::Start(payload), shorten_steps());
    lemma_slugs_stay_unique(w, ops);
}

/// A slug that gets past its stale predecessors is answered with 201, whichever of
/// the six attempts it is; six stale slugs in a row are answered with 409.
pub proof fn lemma_collisions_are_tolerated(w: World, payload: PayloadView, k: nat)
    requires
        target_of(url_parts(payload.url)) is Some,
        payload.slug is None,
        k <= w.queue.len(),
        k <= MAX_ATTEMPTS,
        forall|i: int| 0 <= i < k ==> has_slug(w.table, #[trigger] w.queue[i]),
        k < MAX_ATTEMPTS && k < w.queue.len() ==> !has_slug(w.table, w.queue[k as int]),
    ensures
        shortened(w, payload).1 matches ShortenStepView::Respond(answer) && answer.status == if k
            == MAX_ATTEMPTS {
            StatusCode::Conflict
        } else if k == w.queue.len() {
            StatusCode::ServiceUnavailable
        } else {
            StatusCode::Created
        },
        k < MAX_ATTEMPTS && k < w.queue.len() ==> shortened(w, payload).1 == ShortenStepView::Respond(
            created(
                record_of(w.queue[k as int], target_of(url_parts(payload.url))->0, payload.owner),
            ),
        ),
{
    lemma_shortened(w, payload);
    lemma_stale_count(w.table, w.queue, MAX_ATTEMPTS as nat, k);
}

proof fn lemma_stale_count(table: Seq<RecordView>, queue: Seq<Seq<char>>, limit: nat, k: nat)
    requires
        k <= queue.len(),
        k <= limit,
        forall|i: int| 0 <= i < k ==> has_slug(table, #[trigger] queue[i]),
        k < limit && k < queue.len() ==> !has_slug(table, queue[k as int]),
    ensures
        leading_stale(table, queue, limit) == k,
    decreases limit,
{
    if limit == 0 || queue.len() == 0 {
    } else if k == 0 {
    } else {
        let rest = queue.drop_first();
        assert(has_slug(table, queue[0]));
        assert forall|i: int| 0 <= i < k - 1 implies has_slug(table, #[trigger] rest[i]) by {
            assert(rest[i] == queue[i + 1]);
        }
        if k - 1 < limit - 1 && k - 1 < rest.len() {
            assert(rest[k - 1] == queue[k as int]);
        }
        lemma_stale_count(table, rest, (limit - 1) as nat, (k - 1) as nat);
    }
}

/// Of two requests that bring the same slug of their own, one after the other in
/// either order, the first is answered with 201 and the second with 409, and the
/// table gives the URL of the first for the slug. Each asks the stores once, for
/// its insert, so that two such requests at the same time come to one of the two
/// orders.
pub proof fn lemma_same_slug_twice(w: World, first: PayloadView, second: PayloadView)
    requires
        first.slug matches Some(slug) && valid_length(slug) && !has_slug(w.table, slug),
        second.slug == first.slug,
        target_of(url_parts(first.url)) is Some,
        target_of(url_parts(second.url)) is Some,
    ensures
        ({
            let slug = first.slug->0;
            let url = target_of(url_parts(first.url))->0;
            let record = record_of(slug, url, first.owner);
            let (w1, answer1) = shortened(w, first);
            let (w2, answer2) = shortened(w1, second);
            &&& w1 == apply(w, Op::Insert(record))
            &&& answer1 == ShortenStepView::Respond(created(record))
            &&& w2 == w1
            &&& answer2 == ShortenStepView::Respond(refusal(StatusCode::Conflict))
            &&& url_of(w2.table, slug) == Some(url)
        }),
{
    let slug = first.slug->0;
    let url = target_of(url_parts(first.url))->0;
    let record = record_of(slug, url, first.owner);
    lemma_shortened(w, first);
    let (w1, answer1) = shortened(w, first);
    lemma_insert_keeps_rows(w.table, record);
    lemma_insert_url(w.table, record, slug);
    lemma_shortened(w1, second);
}

/// A request that was answered with 201 left a row for its slug with its URL in the
/// table, changed nothing in the key/value store, and names that slug and URL as
/// what is to be written there.
pub proof fn lemma_created_is_stored(w: World, payload: PayloadView)
    requires
        is_created(shortened(w, payload).1),
    ensures
        ({
            let (w1, end) = shortened(w, payload);
            let answer = end->Respond_0;
            &&& answer.body matches Some(body) && body.slug is Some
            &&& url_of(w1.table, given_slug(end)) == Some(given_url(end))
            &&& answer.write_through == Some(
                KvWriteView { key: given_slug(end), value: given_url(end) },
            )
            &&& permitted(w1, Op::Write(given_slug(end), given_url(end)))
            &&& w1.kv == w.kv
            &&& forall|s: Seq<char>|
                has_slug(w.table, s) ==> #[trigger] url_of(w1.table, s) == url_of(w.table, s)
        }),
{
    lemma_shortened(w, payload);
    let (w1, end) = shortened(w, payload);
    let url = target_of(url_parts(payload.url))->0;
    match payload.slug {
        Some(slug) => {
            let record = record_of(slug, url, payload.owner);
            lemma_insert_url(w.table, record, slug);
            assert(w1.table == insert_row(w.table, record));
            assert forall|s: Seq<char>| has_slug(w.table, s) implies #[trigger] url_of(w1.table, s)
                == url_of(w.table, s) by {
                lemma_insert_url(w.table, record, s);
            }
        },
        None => {
            let k = leading_stale(w.table, w.queue, MAX_ATTEMPTS as nat);
            lemma_leading_stale(w.table, w.queue, MAX_ATTEMPTS as nat);
            let record = record_of(w.queue[k as int], url, payload.owner);
            lemma_insert_url(w.table, record, record.slug);
            assert(w1.table == insert_row(w.table, record));
            assert forall|s: Seq<char>| has_slug(w.table, s) implies #[trigger] url_of(w1.table, s)
                == url_of(w.table, s) by {
                lemma_insert_url(w.table, record, s);
            }
        },
    }
}

/// The handling of a request leaves the key/value store in agreement with the
/// table.
pub proof fn lemma_shortened_keeps_agreement(w: World, payload: PayloadView)
    requires
        kv_agrees(w),
    ensures
        kv_agrees(shortened(w, payload).0),
{
    lemma_shortened(w, payload);
    let (w1, end) = shortened(w, payload);
    if w1.table != w.table {
        let record = w1.table.last();
        assert(w1.table == w.table.push(record));
        assert forall|slug: Seq<char>| #[trigger] w1.kv.contains_key(slug) implies url_of(
            w1.table,
            slug,
        ) == Some(w1.kv[slug]) by {
            lemma_url_of_known(w.table, slug);
            if has_slug(w.table, record.slug) {
                crate::model::lemma_select_push(w.table, record, slug);
                if record.slug == slug {
                    assert(select_urls(w.table, slug).len() > 0);
                }
            } else {
                lemma_insert_url(w.table, record, slug);
            }
        }
    }
}

// ---------------------------------------------------------------------------
// Runs of the read path

/// What the stores reply to the question of `step` in a lookup of `slug`.
pub open spec fn lookup_reply(w: World, slug: Seq<char>, step: LookupStepView) -> LiveReplyView {
    match step {
        LookupStepView::Live(LiveStepView::GetValue) => LiveReplyView::Value(
            Ok(
                if w.kv.contains_key(slug) {
                    Some(w.kv[slug])
                } else {
                    None
                },
            ),
        ),
        LookupStepView::Live(LiveStepView::SelectUrl) => LiveReplyView::Rows(
            Ok(select_urls(w.table, slug)),
        ),
        _ => LiveReplyView::Nothing,
    }
}

/// A lookup of `slug` from `step` on, for at most `fuel` steps, with `hit` what the
/// cache answers: the step reached.
pub open spec fn lookup_run(
    w: World,
    slug: Seq<char>,
    hit: Option<Option<Seq<char>>>,
    step: LookupStepView,
    fuel: nat,
) -> LookupStepView
    decreases fuel,
{
    if fuel == 0 || step is Done {
        step
    } else {
        lookup_run(
            w,
            slug,
            hit,
            lookup_next(slug, step, lookup_reply(w, slug, step), hit),
            (fuel - 1) as nat,
        )
    }
}

/// What a resolver remembers along such a run.
pub open spec fn lookup_run_stored(
    w: World,
    slug: Seq<char>,
    hit: Option<Option<Seq<char>>>,
    step: LookupStepView,
    stored: Map<Seq<char>, Option<Seq<char>>>,
    fuel: nat,
) -> Map<Seq<char>, Option<Seq<char>>>
    decreases fuel,
{
    if fuel == 0 || step is Done {
        stored
    } else {
        lookup_run_stored(
            w,
            slug,
            hit,
            lookup_next(slug, step, lookup_reply(w, slug, step), hit),
            lookup_stored(stored, slug, step, lookup_reply(w, slug, step)),
            (fuel - 1) as nat,
        )
    }
}

/// A whole lookup of `slug` against the stores `w`, with `hit` what the cache
/// answers: the step reached within the three steps that a lookup takes at most.
pub open spec fn looked_up(w: World, slug: Seq<char>, hit: Option<Option<Seq<char>>>) -> LookupStepView {
    lookup_run(w, slug, hit, LookupStepView::Start, 3)
}

/// What a resolver that remembered `stored` remembers after such a lookup.
pub open spec fn stored_after(
    w: World,
    slug: Seq<char>,
    hit: Option<Option<Seq<char>>>,
    stored: Map<Seq<char>, Option<Seq<char>>>,
) -> Map<Seq<char>, Option<Seq<char>>> {
    lookup_run_stored(w, slug, hit, LookupStepView::Start, stored, 3)
}

/// What a lookup finds.
///
/// An entry of the cache ends the lookup at once, and neither store is asked.
/// Without one, the lookup finds the value of the key/value store; without that,
/// the URL that the table gives, which is then to be written to the key/value
/// store; without that, nothing. What was found in a store is remembered.
pub proof fn lemma_looked_up(
    w: World,
    slug: Seq<char>,
    hit: Option<Option<Seq<char>>>,
    stored: Map<Seq<char>, Option<Seq<char>>>,
)
    ensures
        looked_up(w, slug, hit) == LookupStepView::Done(
            match hit {
                Some(entry) => ResolutionView { found: Ok(entry), backfill: None },
                None => if w.kv.contains_key(slug) {
                    ResolutionView { found: Ok(Some(w.kv[slug])), backfill: None }
                } else {
                    match url_of(w.table, slug) {
                        Some(url) => ResolutionView {
                            found: Ok(Some(url)),
                            backfill: Some(KvWriteView { key: slug, value: url }),
                        },
                        None => ResolutionView { found: Ok(None), backfill: None },
                    }
                },
            },
        ),
        stored_after(w, slug, hit, stored) == match hit {
            Some(_) => stored,
            None => stored.insert(
                slug,
                if w.kv.contains_key(slug) {
                    Some(w.kv[slug])
                } else {
                    url_of(w.table, slug)
                },
            ),
        },
{
    reveal_with_fuel(lookup_run, 4);
    reveal_with_fuel(lookup_run_stored, 4);
}

/// A lookup leaves a resolver's memory in agreement with the table, and asks for
/// nothing to be written to the key/value store but what the table gives.
pub proof fn lemma_lookup_keeps_agreement(
    w: World,
    slug: Seq<char>,
    hit: Option<Option<Seq<char>>>,
    stored: Map<Seq<char>, Option<Seq<char>>>,
)
    requires
        kv_agrees(w),
        cache_agrees(w.table, stored),
        may_answer(stored, slug, hit),
    ensures
        cache_agrees(w.table, stored_after(w, slug, hit, stored)),
        looked_up(w, slug, hit) matches LookupStepView::Done(r) && (r.backfill matches Some(write)
            ==> permitted(w, Op::Write(write.key, write.value))),
        looked_up(w, slug, hit) matches LookupStepView::Done(r) && (r.found matches Ok(Some(url))
            ==> url_of(w.table, slug) == Some(url)),
{
    lemma_looked_up(w, slug, hit, stored);
    let after = stored_after(w, slug, hit, stored);
    assert forall|s: Seq<char>| #[trigger] after.contains_key(s) && after[s] is Some implies url_of(
        w.table,
        s,
    ) == after[s] by {
        if s != slug || hit is Some {
            assert(stored.contains_key(s) && stored[s] == after[s]);
        }
    }
}

/// Whether the handling of a request ended with the answer 201.
pub open spec fn is_created(end: ShortenStepView) -> bool {
    end matches ShortenStepView::Respond(answer) && answer.status == StatusCode::Created
}

/// The slug that an answer of 201 names.
pub open spec fn given_slug(end: ShortenStepView) -> Seq<char> {
    end->Respond_0.body->0.slug->0
}

/// The URL that an answer of 201 names.
pub open spec fn given_url(end: ShortenStepView) -> Seq<char> {
    end->Respond_0.body->0.url
}

/// A slug that was given with 201 resolves to the URL of that answer.
///
/// Whatever the services did to the stores since, a lookup of the slug on any
/// resolver whose memory agrees with the table finds that URL, and is answered with
/// a redirect to it, unless the resolver still remembers that the slug did not
/// exist. What the lookup asks to be written to the key/value store is what the
/// table gives, and the resolver's memory goes on agreeing with the table.
pub proof fn lemma_round_trip(
    w: World,
    payload: PayloadView,
    ops: Seq<Op>,
    stored: Map<Seq<char>, Option<Seq<char>>>,
    hit: Option<Option<Seq<char>>>,
)
    requires
        kv_agrees(w),
        is_created(shortened(w, payload).1),
        all_permitted(shortened(w, payload).0, ops),
        cache_agrees(apply_all(shortened(w, payload).0, ops).table, stored),
        may_answer(stored, given_slug(shortened(w, payload).1), hit),
    ensures
        ({
            let slug = given_slug(shortened(w, payload).1);
            let url = given_url(shortened(w, payload).1);
            let now = apply_all(shortened(w, payload).0, ops);
            let end = looked_up(now, slug, hit);
            &&& end is Done
            &&& match end->Done_0.found {
                Ok(Some(found)) => found == url && redirect_for(end->Done_0.found) == RedirectView {
                    status: StatusCode::TemporaryRedirect,
                    location: Some(url),
                },
                Ok(None) => hit == Some(None::<Seq<char>>),
                Err(_) => false,
            }
            &&& end->Done_0.backfill matches Some(write) ==> permitted(
                now,
                Op::Write(write.key, write.value),
            )
            &&& cache_agrees(now.table, stored_after(now, slug, hit, stored))
        }),
{
    let (w1, answer) = shortened(w, payload);
    let slug = given_slug(answer);
    let now = apply_all(w1, ops);
    lemma_created_is_stored(w, payload);
    lemma_shortened_keeps_agreement(w, payload);
    lemma_kv_stays_agreed(w1, ops);
    lemma_url_of_known(w1.table, slug);
    lemma_rows_stay(w1, ops);
    assert(url_of(now.table, slug) == Some(given_url(answer)));
    lemma_looked_up(now, slug, hit, stored);
    lemma_lookup_keeps_agreement(now, slug, hit, stored);
}

/// A slug that a lookup did not find is remembered as missing: the next lookup on
/// that resolver either ends at once with nothing found, without a question to the
/// stores, or, where the cache dropped the entry, asks the stores again. It does
/// not end with a URL before it asked them.
pub proof fn lemma_absence_is_remembered(
    w: World,
    slug: Seq<char>,
    stored: Map<Seq<char>, Option<Seq<char>>>,
    hit: Option<Option<Seq<char>>>,
    reply: LiveReplyView,
)
    requires
        looked_up(w, slug, None) == LookupStepView::Done(
            ResolutionView { found: Ok(None), backfill: None },
        ),
        may_answer(stored_after(w, slug, None, stored), slug, hit),
    ensures
        stored_after(w, slug, None, stored) == stored.insert(slug, None),
        lookup_next(slug, LookupStepView::Start, reply, hit) == if hit is Some {
            LookupStepView::Done(ResolutionView { found: Ok(None), backfill: None })
        } else {
            LookupStepView::Live(LiveStepView::GetValue)
        },
{
    lemma_looked_up(w, slug, None, stored);
}

// ---------------------------------------------------------------------------
// The filler

/// What a tick appends to the pool was absent from the table when the table was
/// asked: the slugs appended are the candidates without a row, in their order, and
/// a tick whose candidates all have a row appends nothing.
pub proof fn lemma_appended_were_absent(
    table: Seq<RecordView>,
    batch: Seq<Seq<char>>,
    taken: Seq<Seq<char>>,
)
    requires
        answers_filter(table, batch, taken),
    ensures
        survivors(batch, taken) == batch.filter(|s: Seq<char>| !has_slug(table, s)),
        forall|i: int|
            0 <= i < survivors(batch, taken).len() ==> !has_slug(
                table,
                #[trigger] survivors(batch, taken)[i],
            ),
        match filtered(batch, taken) {
            FillStepView::Push(kept) => kept == survivors(batch, taken) && kept.len() > 0,
            FillStepView::Done(r) => r == Ok::<usize, StoreError>(0) && forall|i: int|
                0 <= i < batch.len() ==> has_slug(table, #[trigger] batch[i]),
            _ => false,
        },
{
    let by_reply = |s: Seq<char>| !taken.contains(s);
    let by_table = |s: Seq<char>| !has_slug(table, s);
    lemma_same_filter(batch, by_reply, by_table);
    let kept = batch.filter(by_table);
    assert forall|i: int| 0 <= i < kept.len() implies !has_slug(table, #[trigger] kept[i]) by {
        batch.lemma_filter_pred(by_table, i);
    }
    if kept.len() == 0 {
        assert forall|i: int| 0 <= i < batch.len() implies has_slug(table, #[trigger] batch[i]) by {
            if !has_slug(table, batch[i]) {
                batch.lemma_filter_contains(by_table, i);
            }
        }
    }
}

proof fn lemma_same_filter(s: Seq<Seq<char>>, p: spec_fn(Seq<char>) -> bool, q: spec_fn(Seq<char>) -> bool)
    requires
        forall|i: int| 0 <= i < s.len() ==> p(#[trigger] s[i]) == q(s[i]),
    ensures
        s.filter(p) == s.filter(q),
    decreases s.len(),
{
    reveal(Seq::filter);
    if s.len() > 0 {
        assert forall|i: int| 0 <= i < s.drop_last().len() implies p(#[trigger] s.drop_last()[i]) == q(
            s.drop_last()[i],
        ) by {
            assert(s.drop_last()[i] == s[i]);
        }
        lemma_same_filter(s.drop_last(), p, q);
    }
}

} // verus!
