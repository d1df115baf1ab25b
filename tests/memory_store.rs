use calling_storage::memory::MemoryStore;
use calling_storage::record::{CallRecord, StorageError};

fn record(group_id: &str, call_id: &str, ip: &str, region: &str, creator: &str) -> CallRecord {
    CallRecord {
        group_id: group_id.to_string(),
        call_id: call_id.to_string(),
        backend_ip: ip.to_string(),
        backend_region: region.to_string(),
        creator: creator.to_string(),
    }
}

#[test]
fn second_create_returns_original_record() {
    let mut store = MemoryStore::new();
    let first = record("g1", "c1", "10.0.0.1", "us1", "u1");
    let got = store.get_or_add_call_record(first.clone()).unwrap();
    assert_eq!(got, Some(first.clone()));
    let second = record("g1", "c2", "10.0.0.2", "us2", "u2");
    let got = store.get_or_add_call_record(second).unwrap();
    assert_eq!(got, Some(first.clone()));
    assert_eq!(store.get_call_record(&"g1".to_string()).unwrap(), Some(first));
}

#[test]
fn racing_creates_see_one_winner() {
    let mut store = MemoryStore::new();
    let offers = vec![
        record("g", "a", "1.1.1.1", "r", "x"),
        record("g", "b", "2.2.2.2", "r", "y"),
        record("g", "c", "3.3.3.3", "s", "z"),
    ];
    let results: Vec<CallRecord> = offers
        .into_iter()
        .map(|r| store.get_or_add_call_record(r).unwrap().unwrap())
        .collect();
    assert!(results.iter().all(|r| *r == results[0]));
    assert_eq!(results[0].call_id, "a");
    assert_eq!(store.get_call_record(&"g".to_string()).unwrap(), Some(results[0].clone()));
}

#[test]
fn get_on_empty_store_is_none() {
    let store = MemoryStore::new();
    assert_eq!(store.get_call_record(&"nobody".to_string()).unwrap(), None);
}

#[test]
fn remove_then_get_is_none() {
    let mut store = MemoryStore::new();
    store.get_or_add_call_record(record("g1", "c1", "h", "r", "u")).unwrap();
    store.remove_call_record(&"g1".to_string(), "c1").unwrap();
    assert_eq!(store.get_call_record(&"g1".to_string()).unwrap(), None);
}

#[test]
fn remove_of_absent_group_succeeds() {
    let mut store = MemoryStore::new();
    assert!(store.remove_call_record(&"g1".to_string(), "c1").is_ok());
    assert_eq!(store.get_call_record(&"g1".to_string()).unwrap(), None);
}

#[test]
fn stale_remove_keeps_record() {
    let mut store = MemoryStore::new();
    let current = record("g1", "c2", "h", "r", "u");
    store.get_or_add_call_record(current.clone()).unwrap();
    assert!(store.remove_call_record(&"g1".to_string(), "c1").is_ok());
    assert_eq!(store.get_call_record(&"g1".to_string()).unwrap(), Some(current));
}

#[test]
fn remove_leaves_other_groups() {
    let mut store = MemoryStore::new();
    let a = record("a", "1", "h", "r", "u");
    let b = record("b", "2", "h", "r", "u");
    let c = record("c", "3", "h", "r", "u");
    for r in [a.clone(), b.clone(), c.clone()] {
        store.get_or_add_call_record(r).unwrap();
    }
    store.remove_call_record(&"b".to_string(), "2").unwrap();
    assert_eq!(store.get_call_record(&"a".to_string()).unwrap(), Some(a));
    assert_eq!(store.get_call_record(&"b".to_string()).unwrap(), None);
    assert_eq!(store.get_call_record(&"c".to_string()).unwrap(), Some(c));
}

#[test]
fn new_call_after_remove_is_stored() {
    let mut store = MemoryStore::new();
    store.get_or_add_call_record(record("g1", "c1", "h1", "r", "u")).unwrap();
    store.remove_call_record(&"g1".to_string(), "c1").unwrap();
    let next = record("g1", "c2", "h2", "r", "u");
    assert_eq!(store.get_or_add_call_record(next.clone()).unwrap(), Some(next));
}

#[test]
fn region_listing_is_exact() {
    let mut store = MemoryStore::new();
    let a = record("a", "1", "h", "us1", "u");
    let b = record("b", "2", "h", "eu1", "u");
    let c = record("c", "3", "h", "us1", "u");
    for r in [a.clone(), b.clone(), c.clone()] {
        store.get_or_add_call_record(r).unwrap();
    }
    let mut us = store.get_call_records_for_region("us1").unwrap();
    us.sort_by(|x, y| x.group_id.cmp(&y.group_id));
    assert_eq!(us, vec![a, c]);
    assert_eq!(store.get_call_records_for_region("eu1").unwrap(), vec![b]);
}

#[test]
fn region_listing_empty_when_none_match() {
    let mut store = MemoryStore::new();
    assert!(store.get_call_records_for_region("us1").unwrap().is_empty());
    store.get_or_add_call_record(record("a", "1", "h", "eu1", "u")).unwrap();
    assert!(store.get_call_records_for_region("us1").unwrap().is_empty());
}

#[test]
fn created_record_reads_back_equal() {
    let mut store = MemoryStore::new();
    let r = record("group-7", "era-3", "192.168.1.20", "ap-south", "creator-9");
    store.get_or_add_call_record(r.clone()).unwrap();
    let back = store.get_call_record(&"group-7".to_string()).unwrap().unwrap();
    assert_eq!(back.group_id, "group-7");
    assert_eq!(back.call_id, "era-3");
    assert_eq!(back.backend_ip, "192.168.1.20");
    assert_eq!(back.backend_region, "ap-south");
    assert_eq!(back.creator, "creator-9");
}

#[test]
fn record_copy_and_compare() {
    let r = record("g", "c", "h", "r", "u");
    let c = r.copy();
    assert_eq!(c, r);
    assert!(c.same_as(&r));
    assert!(!c.same_as(&record("g", "c", "h", "r", "v")));
}

#[test]
fn storage_error_message() {
    let e = StorageError::UnexpectedError("boom".to_string());
    assert_eq!(e.message(), "boom");
}
