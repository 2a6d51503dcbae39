use shortener::http::StatusCode;
use shortener::reader::{
    handle_redirect_get, lookup_live, LiveReply, LiveStep, LookupStep, Resolution, Resolver,
    CACHE_CAPACITY, CACHE_TTL_SECS,
};
use shortener::store::{KvWrite, StoreError};
use std::collections::HashMap;

/// The two stores, held in memory, with a count of the questions asked.
struct World {
    table: Vec<(String, String)>,
    kv: HashMap<String, String>,
    kv_reads: usize,
    table_reads: usize,
}

fn world(rows: &[(&str, &str)]) -> World {
    World {
        table: rows.iter().map(|(s, u)| (s.to_string(), u.to_string())).collect(),
        kv: HashMap::new(),
        kv_reads: 0,
        table_reads: 0,
    }
}

/// Resolves one slug against stores that do not fail, and writes through.
fn resolve(resolver: &mut Resolver, world: &mut World, slug: &str) -> Resolution {
    let mut step = resolver.lookup_cached(slug, LookupStep::Start, LiveReply::Nothing);
    loop {
        let reply = match &step {
            LookupStep::Live(LiveStep::GetValue) => {
                world.kv_reads += 1;
                LiveReply::Value(Ok(world.kv.get(slug).cloned()))
            }
            LookupStep::Live(LiveStep::SelectUrl) => {
                world.table_reads += 1;
                let rows = world.table.iter().filter(|(s, _)| s == slug).map(|(_, u)| u.clone()).collect();
                LiveReply::Rows(Ok(rows))
            }
            LookupStep::Done(_) => break,
            other => panic!("no store is asked at {:?}", other),
        };
        step = resolver.lookup_cached(slug, step, reply);
    }
    match step {
        LookupStep::Done(resolution) => {
            if let Some(write) = &resolution.backfill {
                world.kv.insert(write.key.clone(), write.value.clone());
            }
            resolution
        }
        other => panic!("not an end: {:?}", other),
    }
}

#[test]
fn cache_limits_are_those_of_the_design() {
    assert_eq!(CACHE_CAPACITY, 100);
    assert_eq!(CACHE_TTL_SECS, 30);
}

#[test]
fn a_known_slug_redirects() {
    let mut w = world(&[("abc", "https://e.com")]);
    let mut r = Resolver::new();
    let found = resolve(&mut r, &mut w, "abc");
    assert_eq!(found.found, Ok(Some("https://e.com".to_string())));
    let answer = handle_redirect_get(found.found);
    assert_eq!(answer.status, StatusCode::TemporaryRedirect);
    assert_eq!(answer.status.code(), 307);
    assert_eq!(answer.location.as_deref(), Some("https://e.com"));
}

#[test]
fn an_unknown_slug_is_remembered_as_missing() {
    let mut w = world(&[("abc", "https://e.com")]);
    let mut r = Resolver::new();
    let first = resolve(&mut r, &mut w, "xyz");
    assert_eq!(first.found, Ok(None));
    assert_eq!(handle_redirect_get(first.found).status, StatusCode::NotFound);
    assert_eq!(handle_redirect_get(Ok(None)).status.code(), 404);
    assert_eq!((w.kv_reads, w.table_reads), (1, 1));
    let second = resolve(&mut r, &mut w, "xyz");
    assert_eq!(second.found, Ok(None));
    assert_eq!(second.backfill, None);
    assert_eq!((w.kv_reads, w.table_reads), (1, 1));
}

#[test]
fn a_row_of_the_table_is_written_back() {
    let mut w = world(&[("abc", "https://e.com")]);
    let mut r = Resolver::new();
    let found = resolve(&mut r, &mut w, "abc");
    assert_eq!(
        found.backfill,
        Some(KvWrite { key: "abc".to_string(), value: "https://e.com".to_string() })
    );
    assert_eq!(w.kv.get("abc").map(|s| s.as_str()), Some("https://e.com"));
    assert_eq!((w.kv_reads, w.table_reads), (1, 1));
}

#[test]
fn a_second_lookup_is_served_from_memory() {
    let mut w = world(&[("abc", "https://e.com")]);
    let mut r = Resolver::new();
    resolve(&mut r, &mut w, "abc");
    let again = resolve(&mut r, &mut w, "abc");
    assert_eq!(again.found, Ok(Some("https://e.com".to_string())));
    assert_eq!(again.backfill, None);
    assert_eq!((w.kv_reads, w.table_reads), (1, 1));
}

#[test]
fn a_value_of_the_key_value_store_ends_the_lookup() {
    let mut w = world(&[]);
    w.kv.insert("abc".to_string(), "https://kv.example/".to_string());
    let mut r = Resolver::new();
    let found = resolve(&mut r, &mut w, "abc");
    assert_eq!(found.found, Ok(Some("https://kv.example/".to_string())));
    assert_eq!(found.backfill, None);
    assert_eq!((w.kv_reads, w.table_reads), (1, 0));
    // Another resolver has its own memory and asks again.
    let mut other = Resolver::new();
    resolve(&mut other, &mut w, "abc");
    assert_eq!((w.kv_reads, w.table_reads), (2, 0));
}

#[test]
fn a_failure_is_not_remembered() {
    let mut r = Resolver::new();
    let step = r.lookup_cached("abc", LookupStep::Start, LiveReply::Nothing);
    assert_eq!(step, LookupStep::Live(LiveStep::GetValue));
    let step = r.lookup_cached("abc", step, LiveReply::Value(Err(StoreError)));
    assert_eq!(step, LookupStep::Done(Resolution { found: Err(StoreError), backfill: None }));
    assert_eq!(handle_redirect_get(Err(StoreError)).status, StatusCode::ServiceUnavailable);
    assert_eq!(handle_redirect_get(Err(StoreError)).status.code(), 503);
    // The next lookup asks the stores again.
    let step = r.lookup_cached("abc", LookupStep::Start, LiveReply::Nothing);
    assert_eq!(step, LookupStep::Live(LiveStep::GetValue));
    let step = r.lookup_cached("abc", step, LiveReply::Value(Ok(None)));
    assert_eq!(step, LookupStep::Live(LiveStep::SelectUrl));
    let step = r.lookup_cached("abc", step, LiveReply::Rows(Err(StoreError)));
    assert_eq!(step, LookupStep::Done(Resolution { found: Err(StoreError), backfill: None }));
    let step = r.lookup_cached("abc", LookupStep::Start, LiveReply::Nothing);
    assert_eq!(step, LookupStep::Live(LiveStep::GetValue));
}

#[test]
fn the_first_row_is_taken() {
    let step = lookup_live(
        "abc",
        LiveStep::SelectUrl,
        LiveReply::Rows(Ok(vec!["https://one/".to_string(), "https://two/".to_string()])),
    );
    assert_eq!(
        step,
        LiveStep::Done(Resolution {
            found: Ok(Some("https://one/".to_string())),
            backfill: Some(KvWrite { key: "abc".to_string(), value: "https://one/".to_string() }),
        })
    );
}

#[test]
fn a_reply_that_was_not_asked_for_ends_the_lookup() {
    let step = lookup_live("abc", LiveStep::GetValue, LiveReply::Rows(Ok(vec![])));
    assert_eq!(step, LiveStep::Done(Resolution { found: Err(StoreError), backfill: None }));
    let step = lookup_live("abc", LiveStep::SelectUrl, LiveReply::Nothing);
    assert_eq!(step, LiveStep::Done(Resolution { found: Err(StoreError), backfill: None }));
}

#[test]
fn an_end_stays() {
    let end = Resolution { found: Ok(Some("https://e.com".to_string())), backfill: None };
    let step = lookup_live("abc", LiveStep::Done(end), LiveReply::Value(Ok(None)));
    assert_eq!(
        step,
        LiveStep::Done(Resolution { found: Ok(Some("https://e.com".to_string())), backfill: None })
    );
}
