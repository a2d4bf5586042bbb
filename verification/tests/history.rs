use liminal_hub::history::{JobRecord, ResultStore, HISTORY_CAPACITY, RECENT_WINDOW};

fn record(n: usize) -> JobRecord {
    JobRecord {
        id: format!("job-{}", n),
        timestamp: format!("2024-01-01T00:00:{:02}+00:00", n % 60),
        mode: "fun".to_string(),
        options: vec!["a".to_string(), "b".to_string()],
        result: "a".to_string(),
        duration_ms: n as u64,
    }
}

fn ids(records: &[JobRecord]) -> Vec<String> {
    records.iter().map(|r| r.id.clone()).collect()
}

#[test]
fn new_store_is_empty() {
    let store = ResultStore::new();
    assert_eq!(store.len(), 0);
    assert!(store.recent(20).is_empty());
    assert!(store.latest().is_empty());
}

#[test]
fn capacity_and_window_constants() {
    assert_eq!(HISTORY_CAPACITY, 100);
    assert_eq!(RECENT_WINDOW, 20);
}

#[test]
fn append_keeps_insertion_order() {
    let mut store = ResultStore::new();
    for n in 0..5 {
        store.append(record(n));
    }
    assert_eq!(store.len(), 5);
    assert_eq!(ids(&store.recent(5)), vec!["job-4", "job-3", "job-2", "job-1", "job-0"]);
}

#[test]
fn recent_returns_clones_of_whole_records() {
    let mut store = ResultStore::new();
    store.append(record(7));
    let out = store.recent(1);
    assert_eq!(out.len(), 1);
    assert_eq!(out[0], record(7));
    assert_eq!(store.len(), 1);
}

#[test]
fn recent_more_than_held_returns_all() {
    let mut store = ResultStore::new();
    for n in 0..3 {
        store.append(record(n));
    }
    assert_eq!(ids(&store.recent(20)), vec!["job-2", "job-1", "job-0"]);
    assert_eq!(ids(&store.recent(usize::MAX)), vec!["job-2", "job-1", "job-0"]);
}

#[test]
fn recent_zero_is_empty() {
    let mut store = ResultStore::new();
    store.append(record(1));
    assert!(store.recent(0).is_empty());
}

#[test]
fn store_fills_to_capacity_without_eviction() {
    let mut store = ResultStore::new();
    for n in 0..100 {
        store.append(record(n));
    }
    assert_eq!(store.len(), 100);
    let all = store.recent(100);
    assert_eq!(all[99].id, "job-0");
    assert_eq!(all[0].id, "job-99");
}

#[test]
fn hundred_and_first_record_evicts_the_oldest() {
    let mut store = ResultStore::new();
    for n in 0..101 {
        store.append(record(n));
    }
    assert_eq!(store.len(), 100);
    let all = ids(&store.recent(200));
    assert_eq!(all.len(), 100);
    assert!(!all.contains(&"job-0".to_string()));
    assert_eq!(all[0], "job-100");
    assert_eq!(all[99], "job-1");
}

#[test]
fn store_never_exceeds_capacity() {
    let mut store = ResultStore::new();
    for n in 0..350 {
        store.append(record(n));
        assert!(store.len() <= 100);
    }
    let all = ids(&store.recent(100));
    assert_eq!(all[0], "job-349");
    assert_eq!(all[99], "job-250");
}

#[test]
fn latest_shows_at_most_twenty_newest_first() {
    let mut store = ResultStore::new();
    for n in 0..45 {
        store.append(record(n));
    }
    let page = ids(&store.latest());
    assert_eq!(page.len(), 20);
    for (i, id) in page.iter().enumerate() {
        assert_eq!(id, &format!("job-{}", 44 - i));
    }
    assert_eq!(page, ids(&store.recent(20)));
}

#[test]
fn shorter_listing_is_prefix_of_longer() {
    let mut store = ResultStore::new();
    for n in 0..30 {
        store.append(record(n));
    }
    let long = ids(&store.recent(20));
    for m in 0..=20 {
        let short = ids(&store.recent(m));
        assert_eq!(short.as_slice(), &long[..m]);
    }
}

#[test]
fn listing_reversed_is_tail_of_history() {
    let mut store = ResultStore::new();
    for n in 0..12 {
        store.append(record(n));
    }
    let mut page = ids(&store.recent(5));
    page.reverse();
    assert_eq!(page, vec!["job-7", "job-8", "job-9", "job-10", "job-11"]);
}

#[test]
fn record_clone_is_equal() {
    let r = record(3);
    assert_eq!(r.clone(), r);
}
