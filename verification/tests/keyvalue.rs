//! Behaviour of the in-memory key-value provider against the atomic and
//! eventual contracts.

use wasi_cloud_core::{KeyValueAtomic, KeyValueEventual, MemoryKeyValue};

#[test]
fn increment_creates_at_zero_and_accumulates() {
    let mut kv = MemoryKeyValue::new();
    assert_eq!(kv.increment("b", "k".to_string(), 5).unwrap(), 5);
    assert_eq!(kv.increment("b", "k".to_string(), 7).unwrap(), 12);
    // Distinct buckets and keys hold distinct counters.
    assert_eq!(kv.increment("b", "other".to_string(), 1).unwrap(), 1);
    assert_eq!(kv.increment("other", "k".to_string(), 2).unwrap(), 2);
    assert_eq!(kv.increment("b", "k".to_string(), 0).unwrap(), 12);
}

#[test]
fn increment_wraps_on_overflow() {
    let mut kv = MemoryKeyValue::new();
    assert_eq!(kv.increment("b", "k".to_string(), u64::MAX).unwrap(), u64::MAX);
    assert_eq!(kv.increment("b", "k".to_string(), 3).unwrap(), 2);
}

#[test]
fn compare_and_swap_mismatch_is_not_destructive() {
    let mut kv = MemoryKeyValue::new();
    kv.increment("b", "k".to_string(), 10).unwrap();
    // Stored value is 10, expected 9: false, and the value is unchanged.
    assert!(!kv.compare_and_swap("b", "k".to_string(), 9, 99).unwrap());
    assert_eq!(kv.increment("b", "k".to_string(), 0).unwrap(), 10);
    // An absent key matches nothing.
    assert!(!kv.compare_and_swap("b", "absent".to_string(), 0, 1).unwrap());
}

#[test]
fn compare_and_swap_match_stores_the_new_value() {
    let mut kv = MemoryKeyValue::new();
    kv.increment("b", "k".to_string(), 10).unwrap();
    assert!(kv.compare_and_swap("b", "k".to_string(), 10, 99).unwrap());
    assert_eq!(kv.increment("b", "k".to_string(), 0).unwrap(), 99);
}

#[test]
fn get_set_delete_round_trip() {
    let mut kv = MemoryKeyValue::new();
    assert!(kv.get("b", "k".to_string()).unwrap().is_none());
    assert!(!kv.has_entry("b", "k".to_string()).unwrap());
    kv.set("b", "k".to_string(), vec![1, 2, 3]).unwrap();
    let (data, len) = kv.get("b", "k".to_string()).unwrap().unwrap();
    assert_eq!(data, vec![1, 2, 3]);
    assert_eq!(len, 3);
    assert!(kv.has_entry("b", "k".to_string()).unwrap());
    // Set replaces the previous value.
    kv.set("b", "k".to_string(), vec![9]).unwrap();
    let (data, len) = kv.get("b", "k".to_string()).unwrap().unwrap();
    assert_eq!(data, vec![9]);
    assert_eq!(len, 1);
    kv.delete("b", "k".to_string()).unwrap();
    assert!(kv.get("b", "k".to_string()).unwrap().is_none());
    // Deleting an absent key is not an error.
    kv.delete("b", "k".to_string()).unwrap();
}
