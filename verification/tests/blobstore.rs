//! Behaviour of the in-memory blobstore provider against the blobstore
//! contract: missing-object normalization, ranged reads, batch deletes and
//! the clear-container composite.

use wasi_cloud_core::{Blobstore, CapabilityError, MemoryBlobstore};

fn store_with(container: &str, objects: &[(&str, &[u8])]) -> MemoryBlobstore {
    let mut store = MemoryBlobstore::new();
    store.create_container(container).unwrap();
    for (name, data) in objects {
        store.write_data(container, name.to_string(), data.to_vec()).unwrap();
    }
    store
}

#[test]
fn missing_object_reads_normalize_to_empty_and_false() {
    let store = store_with("c", &[]);
    let (data, len) = store.get_data("c", "missing".to_string(), 0, 100).unwrap();
    assert_eq!(data.len(), 0);
    assert_eq!(len, 0);
    assert!(!store.has_object("c", "missing".to_string()).unwrap());
}

#[test]
fn reads_in_a_missing_container_fail() {
    let store = MemoryBlobstore::new();
    assert!(matches!(
        store.has_object("absent", "x".to_string()),
        Err(CapabilityError::NotFound(_))
    ));
    assert!(matches!(store.list_objects("absent"), Err(CapabilityError::NotFound(_))));
    assert!(matches!(store.container_info("absent"), Err(CapabilityError::NotFound(_))));
}

#[test]
fn ranged_reads_clamp_to_the_object() {
    let store = store_with("c", &[("obj", b"hello world")]);
    let (data, len) = store.get_data("c", "obj".to_string(), 0, 4).unwrap();
    assert_eq!(data, b"hello".to_vec());
    assert_eq!(len, 5);
    let (data, len) = store.get_data("c", "obj".to_string(), 6, 10).unwrap();
    assert_eq!(data, b"world".to_vec());
    assert_eq!(len, 5);
    // The end clamps to the object's length.
    let (data, len) = store.get_data("c", "obj".to_string(), 6, 1000).unwrap();
    assert_eq!(data, b"world".to_vec());
    assert_eq!(len, 5);
    // A range starting at or past the end is empty.
    let (data, len) = store.get_data("c", "obj".to_string(), 11, 20).unwrap();
    assert_eq!(data.len(), 0);
    assert_eq!(len, 0);
    // An inverted range is empty.
    let (data, len) = store.get_data("c", "obj".to_string(), 4, 2).unwrap();
    assert_eq!(data.len(), 0);
    assert_eq!(len, 0);
}

#[test]
fn write_replaces_and_never_truncates() {
    let mut store = store_with("c", &[("obj", b"first")]);
    store.write_data("c", "obj".to_string(), b"second value".to_vec()).unwrap();
    let (data, len) = store.get_data("c", "obj".to_string(), 0, u64::MAX - 1).unwrap();
    assert_eq!(data, b"second value".to_vec());
    assert_eq!(len, 12);
    // Writing into a missing container fails.
    assert!(matches!(
        store.write_data("absent", "obj".to_string(), vec![1]),
        Err(CapabilityError::NotFound(_))
    ));
}

#[test]
fn metadata_is_authoritative_and_fails_on_absence() {
    let store = store_with("c", &[("obj", b"12345")]);
    let info = store.object_info("c", "obj".to_string()).unwrap();
    assert_eq!(info.name, "obj");
    assert_eq!(info.container, "c");
    assert_eq!(info.size, 5);
    assert!(matches!(
        store.object_info("c", "absent".to_string()),
        Err(CapabilityError::NotFound(_))
    ));
    let info = store.container_info("c").unwrap();
    assert_eq!(info.name, "c");
}

#[test]
fn list_objects_snapshots_names_without_duplicates() {
    let mut store = store_with("c", &[("a", b"1"), ("b", b"2")]);
    // Overwriting does not duplicate a name.
    store.write_data("c", "a".to_string(), b"3".to_vec()).unwrap();
    let mut names = store.list_objects("c").unwrap();
    names.sort();
    assert_eq!(names, vec!["a".to_string(), "b".to_string()]);
    // Another container's objects are not listed.
    store.create_container("other").unwrap();
    assert!(store.list_objects("other").unwrap().is_empty());
}

#[test]
fn delete_objects_removes_only_the_named_snapshot() {
    let mut store = store_with("c", &[("a", b"1"), ("b", b"2"), ("keep", b"3")]);
    store
        .delete_objects("c", vec!["a".to_string(), "b".to_string(), "absent".to_string()])
        .unwrap();
    let names = store.list_objects("c").unwrap();
    assert_eq!(names, vec!["keep".to_string()]);
    // The object not named in the batch survives with its data.
    let (data, _) = store.get_data("c", "keep".to_string(), 0, 10).unwrap();
    assert_eq!(data, b"3".to_vec());
}

#[test]
fn clear_container_equals_list_then_delete_of_the_snapshot() {
    let mut store = store_with("c", &[("a", b"1"), ("b", b"2")]);
    store.create_container("other").unwrap();
    store.write_data("other", "x".to_string(), b"9".to_vec()).unwrap();

    // The composite behaves as listing then batch-deleting the snapshot.
    let mut replayed = store_with("c", &[("a", b"1"), ("b", b"2")]);
    replayed.create_container("other").unwrap();
    replayed.write_data("other", "x".to_string(), b"9".to_vec()).unwrap();
    let snapshot = replayed.list_objects("c").unwrap();
    replayed.delete_objects("c", snapshot).unwrap();

    store.clear_container("c").unwrap();
    assert!(store.list_objects("c").unwrap().is_empty());
    assert!(replayed.list_objects("c").unwrap().is_empty());
    // Objects of other containers survive in both.
    assert!(store.has_object("other", "x".to_string()).unwrap());
    assert!(replayed.has_object("other", "x".to_string()).unwrap());
    // The containers themselves survive.
    assert!(store.container_exists("c").unwrap());
}

#[test]
fn objects_created_after_the_snapshot_survive_the_delete() {
    let mut store = store_with("c", &[("a", b"1"), ("b", b"2")]);
    // Take the snapshot first, as clear-container does.
    let snapshot = store.list_objects("c").unwrap();
    // An object created after the snapshot was taken...
    store.write_data("c", "late".to_string(), b"3".to_vec()).unwrap();
    store.delete_objects("c", snapshot).unwrap();
    // ...is not removed by deleting the snapshot.
    let names = store.list_objects("c").unwrap();
    assert_eq!(names, vec!["late".to_string()]);
}

#[test]
fn delete_container_removes_it_and_its_objects() {
    let mut store = store_with("c", &[("a", b"1")]);
    store.create_container("other").unwrap();
    store.delete_container("c").unwrap();
    assert!(!store.container_exists("c").unwrap());
    assert!(store.container_exists("other").unwrap());
    assert!(matches!(
        store.has_object("c", "a".to_string()),
        Err(CapabilityError::NotFound(_))
    ));
}

#[test]
fn create_container_is_idempotent() {
    let mut store = store_with("c", &[("a", b"1")]);
    store.create_container("c").unwrap();
    // The existing container and its objects are untouched.
    assert!(store.has_object("c", "a".to_string()).unwrap());
}
