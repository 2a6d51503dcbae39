use shortener::filler::{
    after_filter, holds, refill, remove_taken, spell, FillReply, FillStep, FillerConfig, SlugSource,
    TICK_MILLIS,
};
use shortener::slug::symbol;
use shortener::store::StoreError;

fn strings(list: &[&str]) -> Vec<String> {
    list.iter().map(|s| s.to_string()).collect()
}

#[test]
fn a_batch_is_a_tenth_of_the_pool() {
    assert_eq!(FillerConfig::new(1000, 6).batch_size, 100);
    assert_eq!(FillerConfig::new(19, 6).batch_size, 1);
    assert_eq!(FillerConfig::new(9, 6).batch_size, 0);
    assert_eq!(FillerConfig::new(50, 7).slug_len, 7);
    assert_eq!(TICK_MILLIS, 250);
}

#[test]
fn a_full_pool_is_left_alone() {
    let mut source = SlugSource::new();
    let config = FillerConfig::new(20, 5);
    assert_eq!(refill(&mut source, &config, FillStep::QueryLength, FillReply::Length(Ok(20))), FillStep::Done(Ok(0)));
    assert_eq!(refill(&mut source, &config, FillStep::QueryLength, FillReply::Length(Ok(21))), FillStep::Done(Ok(0)));
}

#[test]
fn a_short_pool_gets_a_batch() {
    let mut source = SlugSource::new();
    let config = FillerConfig::new(40, 7);
    match refill(&mut source, &config, FillStep::QueryLength, FillReply::Length(Ok(39))) {
        FillStep::Filter(batch) => {
            assert_eq!(batch.len(), 4);
            for slug in &batch {
                assert_eq!(slug.len(), 7);
                assert!(slug.chars().all(|c| c.is_ascii_alphanumeric()));
            }
        }
        other => panic!("no batch: {:?}", other),
    }
}

#[test]
fn taken_candidates_are_dropped() {
    let mut source = SlugSource::new();
    let config = FillerConfig::new(40, 3);
    let batch = strings(&["aaa", "bbb", "ccc", "ddd"]);
    let next = refill(&mut source, &config, FillStep::Filter(batch), FillReply::Taken(Ok(strings(&["ccc", "aaa"]))));
    assert_eq!(next, FillStep::Push(strings(&["bbb", "ddd"])));
    let done = refill(&mut source, &config, next, FillReply::Pushed(Ok(())));
    assert_eq!(done, FillStep::Done(Ok(2)));
}

#[test]
fn a_batch_that_is_all_taken_adds_nothing() {
    let mut source = SlugSource::new();
    let config = FillerConfig::new(40, 3);
    let batch = strings(&["aaa", "bbb"]);
    let next = refill(&mut source, &config, FillStep::Filter(batch), FillReply::Taken(Ok(strings(&["bbb", "aaa"]))));
    assert_eq!(next, FillStep::Done(Ok(0)));
    assert_eq!(after_filter(Vec::new(), &Vec::new()), FillStep::Done(Ok(0)));
}

#[test]
fn a_failing_store_skips_the_tick() {
    let mut source = SlugSource::new();
    let config = FillerConfig::new(40, 3);
    assert_eq!(refill(&mut source, &config, FillStep::QueryLength, FillReply::Length(Err(StoreError))), FillStep::Done(Err(StoreError)));
    assert_eq!(refill(&mut source, &config, FillStep::Filter(strings(&["aaa"])), FillReply::Taken(Err(StoreError))), FillStep::Done(Err(StoreError)));
    assert_eq!(refill(&mut source, &config, FillStep::Push(strings(&["aaa"])), FillReply::Pushed(Err(StoreError))), FillStep::Done(Err(StoreError)));
    assert_eq!(refill(&mut source, &config, FillStep::QueryLength, FillReply::Nothing), FillStep::Done(Err(StoreError)));
    assert_eq!(refill(&mut source, &config, FillStep::Done(Ok(3)), FillReply::Nothing), FillStep::Done(Ok(3)));
}

#[test]
fn the_order_of_the_candidates_is_kept() {
    let kept = remove_taken(strings(&["d", "a", "c", "a", "b"]), &strings(&["c"]));
    assert_eq!(kept, strings(&["d", "a", "a", "b"]));
    assert!(holds(&strings(&["x", "y"]), "y"));
    assert!(!holds(&strings(&["x", "y"]), "z"));
    assert!(!holds(&Vec::new(), ""));
}

#[test]
fn positions_spell_a_slug() {
    assert_eq!(spell(&vec![0, 9, 10, 35, 36, 61]), "09AZaz");
    assert_eq!(spell(&Vec::new()), "");
    let alphabet: String = (0..62).map(symbol).collect();
    assert_eq!(alphabet, "0123456789ABCDEFGHIJKLMNOPQRSTUVWXYZabcdefghijklmnopqrstuvwxyz");
}

#[test]
fn random_slugs_have_the_length_asked_for() {
    let mut source = SlugSource::new();
    assert_eq!(source.random_slug(0), "");
    let slug = source.random_slug(64);
    assert_eq!(slug.len(), 64);
    assert!(slug.chars().all(|c| c.is_ascii_alphanumeric()));
    let positions = source.draw_positions(500);
    assert_eq!(positions.len(), 500);
    assert!(positions.iter().all(|p| *p < 62));
    // 500 draws that were all the same would show a source that does not draw.
    assert!(positions.iter().any(|p| *p != positions[0]));
}
