//! Tests of the reference in-memory backend through the storage contract.

use kv_server::memory::MemTable;
use kv_server::storage::Storage;

#[test]
fn set_get_contains_delete_round() {
    let mut mt = MemTable::new();
    assert_eq!(mt.set("t".to_string(), "k".to_string(), "v".to_string()), None);
    assert_eq!(mt.get(&"t".to_string(), &"k".to_string()), Some("v".to_string()));
    assert!(mt.contains(&"t".to_string(), &"k".to_string()));
    assert_eq!(
        mt.delete(&"t".to_string(), &"k".to_string()),
        Some("v".to_string())
    );
    assert_eq!(mt.get(&"t".to_string(), &"k".to_string()), None);
    assert!(!mt.contains(&"t".to_string(), &"k".to_string()));
}

#[test]
fn set_returns_prior_value() {
    let mut mt = MemTable::new();
    assert_eq!(mt.set("t".to_string(), "k".to_string(), "v1".to_string()), None);
    assert_eq!(
        mt.set("t".to_string(), "k".to_string(), "v2".to_string()),
        Some("v1".to_string())
    );
    assert_eq!(mt.get(&"t".to_string(), &"k".to_string()), Some("v2".to_string()));
}

#[test]
fn delete_of_absent_key_is_none() {
    let mut mt = MemTable::new();
    assert_eq!(mt.delete(&"t".to_string(), &"k".to_string()), None);
    mt.set("t".to_string(), "other".to_string(), "v".to_string());
    assert_eq!(mt.delete(&"t".to_string(), &"k".to_string()), None);
    assert_eq!(
        mt.get(&"t".to_string(), &"other".to_string()),
        Some("v".to_string())
    );
}

#[test]
fn get_all_is_a_snapshot() {
    let mut mt = MemTable::new();
    mt.set("t".to_string(), "k".to_string(), "v".to_string());
    let snapshot = mt.get_all(&"t".to_string());
    mt.set("t".to_string(), "k".to_string(), "changed".to_string());
    assert_eq!(snapshot.len(), 1);
    assert_eq!(snapshot[0].key, "k".to_string());
    assert_eq!(snapshot[0].value, "v".to_string());
    let after = mt.get_all(&"t".to_string());
    assert_eq!(after.len(), 1);
    assert_eq!(after[0].value, "changed".to_string());
}

#[test]
fn backend_tables_do_not_share_keys() {
    let mut mt = MemTable::new();
    mt.set("t1".to_string(), "k".to_string(), "v".to_string());
    assert_eq!(mt.get(&"t2".to_string(), &"k".to_string()), None);
    assert_eq!(mt.get_all(&"t2".to_string()).len(), 0);
}
