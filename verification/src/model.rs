//! A model of the stores: the table of slugs, the pool of candidates and the
//! key/value mappings, as mathematical values, with what each operation of the
//! services does to them.

use vstd::prelude::*;
use crate::store::RecordView;

verus! {

/// The stores at one moment.
pub struct World {
    /// The rows of the table, in the order of their insertion.
    pub table: Seq<RecordView>,
    /// The pool of candidate slugs, its head first.
    pub queue: Seq<Seq<char>>,
    /// The mappings of the key/value store from slug to URL.
    pub kv: Map<Seq<char>, Seq<char>>,
}

/// Whether `table` has a row for `slug`.
pub open spec fn has_slug(table: Seq<RecordView>, slug: Seq<char>) -> bool {
    exists|i: int| 0 <= i < table.len() && (#[trigger] table[i]).slug == slug
}

/// Whether no two rows of `table` have the same slug.
pub open spec fn unique_slugs(table: Seq<RecordView>) -> bool {
    forall|i: int, j: int|
        0 <= i < j < table.len() ==> (#[trigger] table[i]).slug != (#[trigger] table[j]).slug
}

/// The table after an insert of `record` that leaves existing rows alone: the row
/// is added at the end unless the table has a row for its slug.
pub open spec fn insert_row(table: Seq<RecordView>, record: RecordView) -> Seq<RecordView> {
    if has_slug(table, record.slug) {
        table
    } else {
        table.push(record)
    }
}

/// The number of rows that such an insert reports as written.
pub open spec fn rows_written(table: Seq<RecordView>, record: RecordView) -> u64 {
    if has_slug(table, record.slug) {
        0
    } else {
        1
    }
}

/// The URLs of the rows that `table` has for `slug`, in the table's order.
pub open spec fn select_urls(table: Seq<RecordView>, slug: Seq<char>) -> Seq<Seq<char>> {
    table.filter(|r: RecordView| r.slug == slug).map_values(|r: RecordView| r.url)
}

/// The URL that `table` gives for `slug`: that of its first row for the slug.
pub open spec fn url_of(table: Seq<RecordView>, slug: Seq<char>) -> Option<Seq<char>> {
    if select_urls(table, slug).len() > 0 {
        Some(select_urls(table, slug)[0])
    } else {
        None
    }
}

/// Whether `taken` answers the question which candidates of `batch` the table
/// holds: it names a candidate if and only if the table has a row for it.
pub open spec fn answers_filter(table: Seq<RecordView>, batch: Seq<Seq<char>>, taken: Seq<Seq<char>>) -> bool {
    forall|i: int|
        0 <= i < batch.len() ==> (taken.contains(#[trigger] batch[i]) <==> has_slug(table, batch[i]))
}

/// An operation on the stores that changes them.
pub enum Op {
    /// An insert into the table that leaves existing rows alone.
    Insert(RecordView),
    /// A pop from the head of the pool.
    Pop,
    /// An append to the tail of the pool.
    Push(Seq<Seq<char>>),
    /// A write of a mapping from slug to URL to the key/value store.
    Write(Seq<char>, Seq<char>),
}

/// The stores after `op`.
pub open spec fn apply(w: World, op: Op) -> World {
    match op {
        Op::Insert(record) => World { table: insert_row(w.table, record), ..w },
        Op::Pop => if w.queue.len() > 0 {
            World { queue: w.queue.drop_first(), ..w }
        } else {
            w
        },
        Op::Push(batch) => World { queue: w.queue + batch, ..w },
        Op::Write(key, value) => World { kv: w.kv.insert(key, value), ..w },
    }
}

/// The stores after the operations `ops`, one after the other.
pub open spec fn apply_all(w: World, ops: Seq<Op>) -> World
    decreases ops.len(),
{
    if ops.len() == 0 {
        w
    } else {
        apply(apply_all(w, ops.drop_last()), ops.last())
    }
}

/// The slugs that the pops among `ops` take from the pool of `w`, in their order.
/// A pop from an empty pool takes none.
pub open spec fn popped(w: World, ops: Seq<Op>) -> Seq<Seq<char>>
    decreases ops.len(),
{
    if ops.len() == 0 {
        Seq::empty()
    } else {
        let before = apply_all(w, ops.drop_last());
        let earlier = popped(w, ops.drop_last());
        match ops.last() {
            Op::Pop => if before.queue.len() > 0 {
                earlier.push(before.queue[0])
            } else {
                earlier
            },
            _ => earlier,
        }
    }
}

/// The slugs that the appends among `ops` add to the pool, in their order.
pub open spec fn pushed(ops: Seq<Op>) -> Seq<Seq<char>>
    decreases ops.len(),
{
    if ops.len() == 0 {
        Seq::empty()
    } else {
        match ops.last() {
            Op::Push(batch) => pushed(ops.drop_last()) + batch,
            _ => pushed(ops.drop_last()),
        }
    }
}

/// Whether the key/value store and the table agree: every mapping of the store is
/// the URL that the table gives for that slug.
pub open spec fn kv_agrees(w: World) -> bool {
    forall|slug: Seq<char>| #[trigger]
        w.kv.contains_key(slug) ==> url_of(w.table, slug) == Some(w.kv[slug])
}

/// Whether what a resolver remembers agrees with the table: every URL it
/// remembers for a slug is the one that the table gives for it.
pub open spec fn cache_agrees(table: Seq<RecordView>, stored: Map<Seq<char>, Option<Seq<char>>>) -> bool {
    forall|slug: Seq<char>| #[trigger]
        stored.contains_key(slug) && stored[slug] is Some ==> url_of(table, slug) == stored[slug]
}

/// Whether `op` is one that the services make on the stores as they stand: any
/// insert, pop or append, and a write to the key/value store of what the table
/// gives for the slug.
pub open spec fn permitted(w: World, op: Op) -> bool {
    match op {
        Op::Write(key, value) => url_of(w.table, key) == Some(value),
        _ => true,
    }
}

/// Whether each of `ops` is permitted as the stores stand when its turn comes.
pub open spec fn all_permitted(w: World, ops: Seq<Op>) -> bool
    decreases ops.len(),
{
    if ops.len() == 0 {
        true
    } else {
        all_permitted(w, ops.drop_last()) && permitted(apply_all(w, ops.drop_last()), ops.last())
    }
}

// ---------------------------------------------------------------------------
// The table

/// An insert leaves every row where it was.
pub proof fn lemma_insert_keeps_rows(table: Seq<RecordView>, record: RecordView)
    ensures
        table.len() <= insert_row(table, record).len(),
        forall|i: int| 0 <= i < table.len() ==> #[trigger] insert_row(table, record)[i] == table[i],
        has_slug(insert_row(table, record), record.slug),
        forall|s: Seq<char>| has_slug(table, s) ==> has_slug(insert_row(table, record), s),
{
    let after = insert_row(table, record);
    if !has_slug(table, record.slug) {
        assert(after[table.len() as int].slug == record.slug);
    }
    assert forall|s: Seq<char>| has_slug(table, s) implies has_slug(after, s) by {
        let i = choose|i: int| 0 <= i < table.len() && (#[trigger] table[i]).slug == s;
        assert(after[i].slug == s);
    }
}

/// An insert into a table without two rows of one slug gives such a table.
pub proof fn lemma_insert_keeps_unique(table: Seq<RecordView>, record: RecordView)
    requires
        unique_slugs(table),
    ensures
        unique_slugs(insert_row(table, record)),
{
    let after = insert_row(table, record);
    if !has_slug(table, record.slug) {
        assert forall|i: int, j: int| 0 <= i < j < after.len() implies (#[trigger] after[i]).slug != (
        #[trigger] after[j]).slug by {
            if j == table.len() {
                assert(table[i].slug != record.slug);
            } else {
                assert(after[i] == table[i] && after[j] == table[j]);
            }
        }
    }
}

/// The URLs of the rows for `slug` after one more row.
pub proof fn lemma_select_push(table: Seq<RecordView>, row: RecordView, slug: Seq<char>)
    ensures
        select_urls(table.push(row), slug) == if row.slug == slug {
            select_urls(table, slug).push(row.url)
        } else {
            select_urls(table, slug)
        },
{
    let matches = |r: RecordView| r.slug == slug;
    let longer = table.push(row);
    assert(longer.drop_last() == table);
    assert(longer.last() == row);
    reveal(Seq::filter);
    assert(longer.filter(matches) == if matches(row) {
        table.filter(matches).push(row)
    } else {
        table.filter(matches)
    });
    if row.slug == slug {
        assert(table.filter(matches).push(row).map_values(|r: RecordView| r.url) =~= table.filter(
            matches,
        ).map_values(|r: RecordView| r.url).push(row.url));
    }
}

/// A table gives a URL for exactly the slugs that it has a row for.
pub proof fn lemma_url_of_known(table: Seq<RecordView>, slug: Seq<char>)
    ensures
        url_of(table, slug) is Some <==> has_slug(table, slug),
    decreases table.len(),
{
    if table.len() == 0 {
        reveal(Seq::filter);
        assert(table.filter(|r: RecordView| r.slug == slug).len() == 0);
    } else {
        let shorter = table.drop_last();
        let row = table.last();
        assert(table == shorter.push(row));
        lemma_url_of_known(shorter, slug);
        lemma_select_push(shorter, row, slug);
        if has_slug(shorter, slug) {
            let i = choose|i: int| 0 <= i < shorter.len() && (#[trigger] shorter[i]).slug == slug;
            assert(table[i].slug == slug);
        }
        if has_slug(table, slug) && row.slug != slug {
            let i = choose|i: int| 0 <= i < table.len() && (#[trigger] table[i]).slug == slug;
            assert(shorter[i].slug == slug);
        }
        if row.slug == slug {
            assert(table[table.len() - 1].slug == slug);
        }
    }
}

/// An insert changes what the table gives for no slug but a new one, for which it
/// gives the URL of the new row.
pub proof fn lemma_insert_url(table: Seq<RecordView>, record: RecordView, slug: Seq<char>)
    ensures
        url_of(insert_row(table, record), slug) == if slug == record.slug && !has_slug(
            table,
            record.slug,
        ) {
            Some(record.url)
        } else {
            url_of(table, slug)
        },
{
    if !has_slug(table, record.slug) {
        lemma_select_push(table, record, slug);
        if slug == record.slug {
            lemma_url_of_known(table, slug);
        }
    }
}

// ---------------------------------------------------------------------------
// Sequences of operations

/// Whatever the services do to the stores, in whatever order, the table never
/// comes to hold two rows with the same slug.
pub proof fn lemma_slugs_stay_unique(w: World, ops: Seq<Op>)
    requires
        unique_slugs(w.table),
    ensures
        unique_slugs(apply_all(w, ops).table),
    decreases ops.len(),
{
    if ops.len() > 0 {
        lemma_slugs_stay_unique(w, ops.drop_last());
        let before = apply_all(w, ops.drop_last());
        match ops.last() {
            Op::Insert(record) => lemma_insert_keeps_unique(before.table, record),
            _ => {},
        }
    }
}

/// Whatever the services do to the stores, a row of the table stays as it is and
/// where it is, and the table goes on giving the same URL for its slug.
pub proof fn lemma_rows_stay(w: World, ops: Seq<Op>)
    ensures
        w.table.len() <= apply_all(w, ops).table.len(),
        forall|i: int| 0 <= i < w.table.len() ==> #[trigger] apply_all(w, ops).table[i] == w.table[i],
        forall|slug: Seq<char>|
            has_slug(w.table, slug) ==> #[trigger] url_of(apply_all(w, ops).table, slug) == url_of(
                w.table,
                slug,
            ),
    decreases ops.len(),
{
    if ops.len() > 0 {
        lemma_rows_stay(w, ops.drop_last());
        let before = apply_all(w, ops.drop_last());
        let after = apply_all(w, ops);
        match ops.last() {
            Op::Insert(record) => {
                lemma_insert_keeps_rows(before.table, record);
                assert forall|slug: Seq<char>| has_slug(w.table, slug) implies #[trigger] url_of(
                    after.table,
                    slug,
                ) == url_of(w.table, slug) by {
                    lemma_insert_url(before.table, record, slug);
                    lemma_url_of_known(w.table, slug);
                    lemma_url_of_known(before.table, slug);
                }
            },
            _ => {},
        }
    }
}

/// The pool is a queue: whatever is done to the stores, the slugs taken from the
/// pool, followed by those that are left in it, are the slugs that were in it at
/// first followed by those appended, all in their order.
pub proof fn lemma_pool_is_fifo(w: World, ops: Seq<Op>)
    ensures
        popped(w, ops) + apply_all(w, ops).queue == w.queue + pushed(ops),
    decreases ops.len(),
{
    if ops.len() > 0 {
        lemma_pool_is_fifo(w, ops.drop_last());
        let before = apply_all(w, ops.drop_last());
        let earlier = popped(w, ops.drop_last());
        match ops.last() {
            Op::Pop => {
                if before.queue.len() > 0 {
                    assert(earlier.push(before.queue[0]) + before.queue.drop_first() =~= earlier
                        + before.queue);
                }
            },
            Op::Push(batch) => {
                assert(earlier + (before.queue + batch) =~= (earlier + before.queue) + batch);
                assert((w.queue + pushed(ops.drop_last())) + batch =~= w.queue + (pushed(
                    ops.drop_last(),
                ) + batch));
            },
            _ => {},
        }
    } else {
        assert(popped(w, ops) + w.queue =~= w.queue + pushed(ops));
    }
}

/// Where the key/value store agrees with the table, it goes on doing so whatever
/// the services do to the stores.
pub proof fn lemma_kv_stays_agreed(w: World, ops: Seq<Op>)
    requires
        kv_agrees(w),
        all_permitted(w, ops),
    ensures
        kv_agrees(apply_all(w, ops)),
    decreases ops.len(),
{
    if ops.len() > 0 {
        lemma_kv_stays_agreed(w, ops.drop_last());
        let before = apply_all(w, ops.drop_last());
        let after = apply_all(w, ops);
        match ops.last() {
            Op::Insert(record) => {
                assert forall|slug: Seq<char>| #[trigger]
                    after.kv.contains_key(slug) implies url_of(after.table, slug) == Some(
                    after.kv[slug],
                ) by {
                    lemma_insert_url(before.table, record, slug);
                    lemma_url_of_known(before.table, slug);
                }
            },
            _ => {},
        }
    }
}

/// Where what a resolver remembers agrees with the table, it goes on doing so
/// whatever the services do to the stores.
pub proof fn lemma_cache_stays_agreed(
    w: World,
    ops: Seq<Op>,
    stored: Map<Seq<char>, Option<Seq<char>>>,
)
    requires
        cache_agrees(w.table, stored),
    ensures
        cache_agrees(apply_all(w, ops).table, stored),
{
    lemma_rows_stay(w, ops);
    assert forall|slug: Seq<char>| #[trigger]
        stored.contains_key(slug) && stored[slug] is Some implies url_of(
        apply_all(w, ops).table,
        slug,
    ) == stored[slug] by {
        lemma_url_of_known(w.table, slug);
    }
}

} // verus!
