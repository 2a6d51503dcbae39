use shortener::http::StatusCode;
use shortener::reader::{handle_redirect_get, LiveReply, LiveStep, LookupStep, Resolver};
use shortener::store::SlugRecord;
use shortener::writer::{handle_shorten_post, PoolStep, ShortenPayload, ShortenResponse, ShortenStep, StoreReply};
use std::collections::{HashMap, VecDeque};

/// The stores, shared by a writer and the readers.
struct World {
    table: Vec<SlugRecord>,
    queue: VecDeque<String>,
    kv: HashMap<String, String>,
}

fn shorten(world: &mut World, payload: ShortenPayload) -> ShortenResponse {
    let mut step = handle_shorten_post(ShortenStep::Start(payload), StoreReply::Nothing);
    loop {
        let reply = match &step {
            ShortenStep::InsertCustom(record) | ShortenStep::Pool { step: PoolStep::Insert { record, .. }, .. } => {
                if world.table.iter().any(|r| r.slug == record.slug) {
                    StoreReply::Inserted(Ok(0))
                } else {
                    world.table.push(record.clone());
                    StoreReply::Inserted(Ok(1))
                }
            }
            ShortenStep::Pool { step: PoolStep::Pop { .. }, .. } => StoreReply::Popped(Ok(world.queue.pop_front())),
            ShortenStep::Respond(_) => break,
            other => panic!("no store is asked at {:?}", other),
        };
        step = handle_shorten_post(step, reply);
    }
    match step {
        ShortenStep::Respond(response) => response,
        other => panic!("not an answer: {:?}", other),
    }
}

fn resolve(resolver: &mut Resolver, world: &mut World, slug: &str) -> Result<Option<String>, shortener::store::StoreError> {
    let mut step = resolver.lookup_cached(slug, LookupStep::Start, LiveReply::Nothing);
    loop {
        let reply = match &step {
            LookupStep::Live(LiveStep::GetValue) => LiveReply::Value(Ok(world.kv.get(slug).cloned())),
            LookupStep::Live(LiveStep::SelectUrl) => LiveReply::Rows(Ok(world
                .table
                .iter()
                .filter(|r| r.slug == slug)
                .map(|r| r.url.clone())
                .collect())),
            LookupStep::Done(_) => break,
            other => panic!("no store is asked at {:?}", other),
        };
        step = resolver.lookup_cached(slug, step, reply);
    }
    match step {
        LookupStep::Done(r) => {
            if let Some(write) = r.backfill {
                world.kv.insert(write.key, write.value);
            }
            r.found
        }
        other => panic!("not an end: {:?}", other),
    }
}

fn fresh(queue: &[&str]) -> World {
    World { table: Vec::new(), queue: queue.iter().map(|s| s.to_string()).collect(), kv: HashMap::new() }
}

#[test]
fn a_given_slug_resolves_to_its_url() {
    let mut w = fresh(&["q1", "q2"]);
    let made = shorten(&mut w, ShortenPayload { owner: None, slug: None, url: "https://example.com/a?b=c".to_string() });
    assert_eq!(made.status, StatusCode::Created);
    let body = made.body.unwrap();
    let slug = body.slug.unwrap();
    // The write to the key/value store was lost: the table still answers.
    let mut reader = Resolver::new();
    let answer = handle_redirect_get(resolve(&mut reader, &mut w, &slug));
    assert_eq!(answer.status, StatusCode::TemporaryRedirect);
    assert_eq!(answer.location, Some(body.url.clone()));
    // Another reader finds what the first wrote back.
    assert_eq!(w.kv.get(&slug), Some(&body.url));
    let mut other = Resolver::new();
    assert_eq!(resolve(&mut other, &mut w, &slug), Ok(Some(body.url)));
}

#[test]
fn a_written_through_slug_resolves_without_the_table() {
    let mut w = fresh(&[]);
    let made = shorten(&mut w, ShortenPayload { owner: None, slug: Some("mine".to_string()), url: "http://example.org/".to_string() });
    let write = made.write_through.unwrap();
    w.kv.insert(write.key, write.value);
    w.table.clear();
    let mut reader = Resolver::new();
    assert_eq!(resolve(&mut reader, &mut w, "mine"), Ok(Some("http://example.org/".to_string())));
}

#[test]
fn a_reader_that_saw_the_slug_missing_goes_on_saying_so() {
    let mut w = fresh(&[]);
    let mut reader = Resolver::new();
    assert_eq!(resolve(&mut reader, &mut w, "late"), Ok(None));
    let made = shorten(&mut w, ShortenPayload { owner: None, slug: Some("late".to_string()), url: "http://example.org/".to_string() });
    assert_eq!(made.status, StatusCode::Created);
    assert_eq!(resolve(&mut reader, &mut w, "late"), Ok(None));
    let mut other = Resolver::new();
    assert_eq!(resolve(&mut other, &mut w, "late"), Ok(Some("http://example.org/".to_string())));
}

#[test]
fn repeated_requests_get_distinct_slugs() {
    let mut w = fresh(&["one", "two", "three"]);
    let mut given = Vec::new();
    for _ in 0..3 {
        let made = shorten(&mut w, ShortenPayload { owner: None, slug: None, url: "https://x/".to_string() });
        given.push(made.body.unwrap().slug.unwrap());
    }
    assert_eq!(given, vec!["one", "two", "three"]);
    assert_eq!(w.table.len(), 3);
}
