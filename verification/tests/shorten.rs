use shortener::http::StatusCode;
use shortener::store::{KvWrite, SlugRecord, StoreError};
use shortener::writer::{
    allocate_mini_slug, handle_shorten_post, insert_slug, inserted, MiniErr, PoolStep, ShortenPayload,
    ShortenResponse, ShortenStep, Status, StoreReply, MAX_ATTEMPTS,
};
use std::collections::VecDeque;

/// The two stores, held in memory.
struct World {
    table: Vec<SlugRecord>,
    queue: VecDeque<String>,
    pops: usize,
    inserts: usize,
}

fn world(queue: &[&str]) -> World {
    World {
        table: Vec::new(),
        queue: queue.iter().map(|s| s.to_string()).collect(),
        pops: 0,
        inserts: 0,
    }
}

fn insert(world: &mut World, record: &SlugRecord) -> u64 {
    world.inserts += 1;
    if world.table.iter().any(|r| r.slug == record.slug) {
        0
    } else {
        world.table.push(record.clone());
        1
    }
}

fn pop(world: &mut World) -> Option<String> {
    world.pops += 1;
    world.queue.pop_front()
}

/// Handles one request against stores that do not fail.
fn shorten(world: &mut World, payload: ShortenPayload) -> ShortenResponse {
    let mut step = handle_shorten_post(ShortenStep::Start(payload), StoreReply::Nothing);
    loop {
        let reply = match &step {
            ShortenStep::InsertCustom(record) => StoreReply::Inserted(Ok(insert(world, record))),
            ShortenStep::Pool { step: PoolStep::Pop { .. }, .. } => StoreReply::Popped(Ok(pop(world))),
            ShortenStep::Pool { step: PoolStep::Insert { record, .. }, .. } => {
                StoreReply::Inserted(Ok(insert(world, record)))
            }
            ShortenStep::Respond(_) => break,
            other => panic!("no store is asked at {:?}", other),
        };
        step = handle_shorten_post(step, reply);
    }
    match step {
        ShortenStep::Respond(response) => response,
        other => panic!("not an answer: {:?}", other),
    }
}

fn payload(url: &str, slug: Option<&str>) -> ShortenPayload {
    ShortenPayload { owner: None, slug: slug.map(|s| s.to_string()), url: url.to_string() }
}

#[test]
fn pool_slug_is_taken_from_the_head() {
    let mut w = world(&["abc", "def"]);
    let response = shorten(&mut w, payload("https://example.com/a", None));
    assert_eq!(response.status, StatusCode::Created);
    assert_eq!(response.status.code(), 201);
    let body = response.body.unwrap();
    assert_eq!(body.slug.as_deref(), Some("abc"));
    assert_eq!(body.url, "https://example.com/a");
    assert_eq!(w.queue, VecDeque::from(vec!["def".to_string()]));
    assert_eq!(w.table.len(), 1);
    assert_eq!(w.table[0].slug, "abc");
    assert_eq!(w.table[0].first_char, "a");
    assert_eq!(w.table[0].url, "https://example.com/a");
    assert_eq!(
        response.write_through,
        Some(KvWrite { key: "abc".to_string(), value: "https://example.com/a".to_string() })
    );
}

#[test]
fn other_scheme_is_refused() {
    let mut w = world(&["abc"]);
    let response = shorten(&mut w, payload("ftp://x", None));
    assert_eq!(response.status, StatusCode::BadRequest);
    assert_eq!(response.status.code(), 400);
    assert_eq!(response.body, None);
    assert_eq!(response.write_through, None);
    assert_eq!(w.pops, 0);
    assert_eq!(w.inserts, 0);
}

#[test]
fn relative_url_is_refused() {
    let mut w = world(&["abc"]);
    assert_eq!(shorten(&mut w, payload("/just/a/path", None)).status, StatusCode::BadRequest);
    assert_eq!(shorten(&mut w, payload("", None)).status, StatusCode::BadRequest);
    assert_eq!(w.pops, 0);
}

#[test]
fn short_slug_is_refused() {
    let mut w = world(&[]);
    let response = shorten(&mut w, payload("https://x", Some("ab")));
    assert_eq!(response.status, StatusCode::BadRequest);
    assert_eq!(w.inserts, 0);
}

#[test]
fn slug_length_bounds() {
    let mut w = world(&[]);
    assert_eq!(shorten(&mut w, payload("https://x", Some("abc"))).status, StatusCode::Created);
    let longest = "a".repeat(256);
    assert_eq!(shorten(&mut w, payload("https://x", Some(&longest))).status, StatusCode::Created);
    let too_long = "a".repeat(257);
    assert_eq!(shorten(&mut w, payload("https://x", Some(&too_long))).status, StatusCode::BadRequest);
    // The length is counted in bytes: two characters of two bytes each pass.
    assert_eq!(shorten(&mut w, payload("https://x", Some("éé"))).status, StatusCode::Created);
    assert_eq!(w.table.last().unwrap().first_char, "é");
}

#[test]
fn custom_slug_twice_conflicts() {
    let mut w = world(&[]);
    let first = shorten(&mut w, payload("https://x", Some("mypage")));
    assert_eq!(first.status, StatusCode::Created);
    assert_eq!(first.body.unwrap().slug.as_deref(), Some("mypage"));
    let second = shorten(&mut w, payload("https://x", Some("mypage")));
    assert_eq!(second.status, StatusCode::Conflict);
    assert_eq!(second.status.code(), 409);
    assert_eq!(second.body, None);
    assert_eq!(second.write_through, None);
    assert_eq!(w.table.len(), 1);
}

#[test]
fn same_custom_slug_keeps_the_first_url() {
    let mut w = world(&[]);
    let a = shorten(&mut w, payload("https://a.example/", Some("shared")));
    let b = shorten(&mut w, payload("https://b.example/", Some("shared")));
    assert_eq!(a.status, StatusCode::Created);
    assert_eq!(b.status, StatusCode::Conflict);
    assert_eq!(w.table.len(), 1);
    assert_eq!(w.table[0].url, a.body.unwrap().url);
}

#[test]
fn empty_pool_is_unavailable() {
    let mut w = world(&[]);
    let response = shorten(&mut w, payload("https://x", None));
    assert_eq!(response.status, StatusCode::ServiceUnavailable);
    assert_eq!(response.status.code(), 503);
    assert_eq!(w.pops, 1);
    assert_eq!(w.inserts, 0);
}

#[test]
fn stale_slugs_are_skipped() {
    for stale in 0..MAX_ATTEMPTS {
        let names: Vec<String> = (0..stale + 2).map(|i| format!("slug{}", i)).collect();
        let mut w = world(&names.iter().map(|s| s.as_str()).collect::<Vec<_>>());
        for name in &names[..stale] {
            let taken = insert_slug(name.clone(), "https://old.example/", &None);
            w.table.push(taken);
        }
        let response = shorten(&mut w, payload("https://x", None));
        assert_eq!(response.status, StatusCode::Created);
        assert_eq!(response.body.unwrap().slug, Some(names[stale].clone()));
        assert_eq!(w.pops, stale + 1);
        assert_eq!(w.queue.len(), 1);
        assert_eq!(w.table.len(), stale + 1);
    }
}

#[test]
fn six_stale_slugs_conflict() {
    let names: Vec<String> = (0..8).map(|i| format!("slug{}", i)).collect();
    let mut w = world(&names.iter().map(|s| s.as_str()).collect::<Vec<_>>());
    for name in &names[..6] {
        w.table.push(insert_slug(name.clone(), "https://old.example/", &None));
    }
    let response = shorten(&mut w, payload("https://x", None));
    assert_eq!(response.status, StatusCode::Conflict);
    assert_eq!(w.pops, 6);
    assert_eq!(w.inserts, 6);
    assert_eq!(w.queue.len(), 2);
    assert_eq!(w.table.len(), 6);
}

#[test]
fn stale_slugs_then_empty_pool() {
    let mut w = world(&["one", "two"]);
    w.table.push(insert_slug("one".to_string(), "https://old.example/", &None));
    w.table.push(insert_slug("two".to_string(), "https://old.example/", &None));
    let response = shorten(&mut w, payload("https://x", None));
    assert_eq!(response.status, StatusCode::ServiceUnavailable);
    assert_eq!(w.pops, 3);
}

#[test]
fn failing_stores_are_unavailable() {
    let p = payload("https://x/", None);
    let popped = allocate_mini_slug(&p, PoolStep::first(), StoreReply::Popped(Err(StoreError)));
    assert_eq!(popped, PoolStep::Done(Err(MiniErr { status: Status::Other })));

    let insert = allocate_mini_slug(&p, PoolStep::first(), StoreReply::Popped(Ok(Some("abc".to_string()))));
    let failed = allocate_mini_slug(&p, insert, StoreReply::Inserted(Err(StoreError)));
    assert_eq!(failed, PoolStep::Done(Err(MiniErr { status: Status::Other })));

    let step = handle_shorten_post(ShortenStep::Start(payload("https://x", Some("mine"))), StoreReply::Nothing);
    let answer = handle_shorten_post(step, StoreReply::Inserted(Err(StoreError)));
    match answer {
        ShortenStep::Respond(r) => assert_eq!(r.status, StatusCode::ServiceUnavailable),
        other => panic!("not an answer: {:?}", other),
    }

    let step = handle_shorten_post(ShortenStep::Start(payload("https://x", None)), StoreReply::Nothing);
    let answer = handle_shorten_post(step, StoreReply::Popped(Err(StoreError)));
    match answer {
        ShortenStep::Respond(r) => assert_eq!(r.status, StatusCode::ServiceUnavailable),
        other => panic!("not an answer: {:?}", other),
    }
}

#[test]
fn a_reply_that_was_not_asked_for_ends_the_allocation() {
    let p = payload("https://x/", None);
    let step = allocate_mini_slug(&p, PoolStep::first(), StoreReply::Inserted(Ok(1)));
    assert_eq!(step, PoolStep::Done(Err(MiniErr { status: Status::Other })));
    let step = allocate_mini_slug(&p, PoolStep::first(), StoreReply::Nothing);
    assert_eq!(step, PoolStep::Done(Err(MiniErr { status: Status::Other })));
}

#[test]
fn the_url_is_normalised() {
    let mut w = world(&["abc"]);
    let response = shorten(&mut w, payload("HTTPS://Example.COM", None));
    assert_eq!(response.status, StatusCode::Created);
    assert_eq!(response.body.unwrap().url, "https://example.com/");
    assert_eq!(w.table[0].url, "https://example.com/");
}

#[test]
fn the_owner_is_kept() {
    let mut w = world(&["abc"]);
    let mut p = payload("http://example.com/", None);
    p.owner = Some("alice".to_string());
    let response = shorten(&mut w, p);
    assert_eq!(response.body.unwrap().owner.as_deref(), Some("alice"));
    assert_eq!(w.table[0].owner.as_deref(), Some("alice"));
}

#[test]
fn only_one_row_counts_as_written() {
    assert!(inserted(1));
    assert!(!inserted(0));
    assert!(!inserted(2));
}

#[test]
fn the_row_of_a_slug() {
    let record = insert_slug("Zebra".to_string(), "https://z.example/", &Some("bob".to_string()));
    assert_eq!(record.first_char, "Z");
    assert_eq!(record.slug, "Zebra");
    assert_eq!(record.url, "https://z.example/");
    assert_eq!(record.owner.as_deref(), Some("bob"));
    assert_eq!(insert_slug(String::new(), "https://z.example/", &None).first_char, "");
}

#[test]
fn every_way_an_allocation_ends() {
    let p = payload("https://x/", None);
    let empty = allocate_mini_slug(&p, PoolStep::first(), StoreReply::Popped(Ok(None)));
    assert_eq!(empty, PoolStep::Done(Err(MiniErr { status: Status::NoSlug })));

    let record = insert_slug("abc".to_string(), "https://x/", &None);
    let last = PoolStep::Insert { attempt: MAX_ATTEMPTS - 1, record: record.clone() };
    let exhausted = allocate_mini_slug(&p, last, StoreReply::Inserted(Ok(0)));
    assert_eq!(exhausted, PoolStep::Done(Err(MiniErr { status: Status::DbConflict })));

    let before_last = PoolStep::Insert { attempt: MAX_ATTEMPTS - 2, record: record.clone() };
    let again = allocate_mini_slug(&p, before_last, StoreReply::Inserted(Ok(0)));
    assert_eq!(again, PoolStep::Pop { attempt: MAX_ATTEMPTS - 1 });

    let written = PoolStep::Insert { attempt: 0, record };
    let done = allocate_mini_slug(&p, written, StoreReply::Inserted(Ok(1)));
    assert_eq!(done, PoolStep::Done(Ok("abc".to_string())));
    assert_eq!(MAX_ATTEMPTS, 6);
}
