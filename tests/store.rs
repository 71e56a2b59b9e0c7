use chain_metrics::store::{MetricsStore, StoreError};
use chain_metrics::snapshot::{MetricsSnapshot, StoredSnapshot};

fn sample(height: u64) -> MetricsSnapshot {
    MetricsSnapshot::new(height, 3.5e20f64.to_bits(), 7.2e13f64.to_bits(), 12000)
}

#[test]
fn empty_store_has_no_latest() {
    let store = MetricsStore::new();
    assert_eq!(store.len(), 0);
    assert_eq!(store.latest(), None);
}

#[test]
fn one_insert_is_the_latest() {
    let mut store = MetricsStore::new();
    let row = store.insert(sample(800000), 1_700_000_000, Ok(())).unwrap();
    assert_eq!(row.id, 1);
    assert_eq!(row.captured_at, 1_700_000_000);
    assert_eq!(row.snapshot, sample(800000));
    assert_eq!(store.latest(), Some(row));
    assert_eq!(store.len(), 1);
}

#[test]
fn latest_is_the_most_recent_of_many() {
    let mut store = MetricsStore::new();
    for h in 1..=5u64 {
        store.insert(sample(h), 100, Ok(())).unwrap();
    }
    let latest = store.latest().unwrap();
    assert_eq!(latest.snapshot.block_height, 5);
    assert_eq!(latest.id, 5);
    assert_eq!(store.len(), 5);
}

#[test]
fn clock_going_back_keeps_capture_order() {
    let mut store = MetricsStore::new();
    store.insert(sample(1), 500, Ok(())).unwrap();
    let row = store.insert(sample(2), 400, Ok(())).unwrap();
    assert_eq!(row.captured_at, 500);
    assert_eq!(row.id, 2);
    assert_eq!(store.latest().unwrap().snapshot.block_height, 2);
}

#[test]
fn next_row_matches_insert() {
    let mut store = MetricsStore::new();
    store.insert(sample(1), 10, Ok(())).unwrap();
    let planned = store.next_row(sample(2), 20).unwrap();
    let row = store.insert(sample(2), 20, Ok(())).unwrap();
    assert_eq!(planned, row);
}

#[test]
fn failed_write_leaves_store_unchanged() {
    let mut store = MetricsStore::new();
    store.insert(sample(1), 10, Ok(())).unwrap();
    let r = store.insert(sample(2), 20, Err(StoreError::Unavailable));
    assert_eq!(r, Err(StoreError::Unavailable));
    assert_eq!(store.len(), 1);
    assert_eq!(store.latest().unwrap().snapshot.block_height, 1);
    let next = store.insert(sample(3), 30, Ok(())).unwrap();
    assert_eq!(next.id, 2);
}

#[test]
fn ids_exhausted_is_an_error() {
    let mut store = MetricsStore::new();
    let last = StoredSnapshot { id: u64::MAX - 1, captured_at: 5, snapshot: sample(1) };
    assert!(store.restore(last));
    assert_eq!(store.next_row(sample(2), 6), None);
    assert_eq!(store.insert(sample(2), 6, Ok(())), Err(StoreError::IdsExhausted));
    assert_eq!(store.len(), 1);
}

#[test]
fn restore_keeps_order() {
    let mut store = MetricsStore::new();
    let a = StoredSnapshot { id: 4, captured_at: 50, snapshot: sample(1) };
    let b = StoredSnapshot { id: 3, captured_at: 60, snapshot: sample(2) };
    let c = StoredSnapshot { id: 9, captured_at: 40, snapshot: sample(3) };
    let d = StoredSnapshot { id: 9, captured_at: 50, snapshot: sample(4) };
    assert!(store.restore(a));
    assert!(!store.restore(b));
    assert!(!store.restore(c));
    assert!(store.restore(d));
    assert_eq!(store.len(), 2);
    assert_eq!(store.latest(), Some(d));
    assert_eq!(store.insert(sample(5), 1, Ok(())).unwrap().id, 10);
}
