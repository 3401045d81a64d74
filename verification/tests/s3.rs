//! The object-storage provider's decision logic: outcome normalization,
//! error-context wrapping, timestamp and length normalization, and the
//! ranged-read header.

use wasi_cloud_core::{
    bucket_listed, container_info_result, content_length_u64, created_at_seconds, get_data_result,
    has_object_result, list_keys, object_info_result, range_header, submit_result,
    u64_to_dec, CapabilityError, DataSource, GetObjectOutcome, ObjectStatOutcome,
};

#[test]
fn decimal_rendering_is_exact() {
    assert_eq!(u64_to_dec(0), "0");
    assert_eq!(u64_to_dec(7), "7");
    assert_eq!(u64_to_dec(10), "10");
    assert_eq!(u64_to_dec(1234), "1234");
    assert_eq!(u64_to_dec(u64::MAX), "18446744073709551615");
}

#[test]
fn range_header_is_exact() {
    assert_eq!(range_header(0, 0), "bytes=0-0");
    assert_eq!(range_header(100, 4096), "bytes=100-4096");
}

#[test]
fn timestamps_normalize_negative_and_missing_to_zero() {
    assert_eq!(created_at_seconds(None), 0);
    assert_eq!(created_at_seconds(Some(-5)), 0);
    assert_eq!(created_at_seconds(Some(0)), 0);
    assert_eq!(created_at_seconds(Some(1_700_000_000)), 1_700_000_000);
}

#[test]
fn content_lengths_reinterpret_as_unsigned() {
    assert_eq!(content_length_u64(None), 0);
    assert_eq!(content_length_u64(Some(0)), 0);
    assert_eq!(content_length_u64(Some(42)), 42);
    assert_eq!(content_length_u64(Some(-1)), u64::MAX);
    assert_eq!(content_length_u64(Some(i64::MIN)), 1 << 63);
}

#[test]
fn missing_key_reads_normalize_to_empty_and_false() {
    let (source, len) = get_data_result(GetObjectOutcome::NoSuchKey).unwrap();
    assert!(matches!(source, DataSource::Empty));
    assert_eq!(len, 0);
    assert!(!has_object_result(GetObjectOutcome::NoSuchKey).unwrap());
}

#[test]
fn found_reads_use_the_backend_body_and_length() {
    let (source, len) =
        get_data_result(GetObjectOutcome::Found { content_length: Some(17) }).unwrap();
    assert!(matches!(source, DataSource::Backend));
    assert_eq!(len, 17);
    let (_, len) = get_data_result(GetObjectOutcome::Found { content_length: None }).unwrap();
    assert_eq!(len, 0);
    assert!(has_object_result(GetObjectOutcome::Found { content_length: None }).unwrap());
}

#[test]
fn other_backend_errors_propagate() {
    let e = get_data_result(GetObjectOutcome::Failure("boom".to_string())).unwrap_err();
    assert!(matches!(e, CapabilityError::BackendFault(m) if m == "boom"));
    let e = has_object_result(GetObjectOutcome::Failure("boom".to_string())).unwrap_err();
    assert!(matches!(e, CapabilityError::BackendFault(m) if m == "boom"));
}

#[test]
fn object_info_builds_normalized_metadata() {
    let info = object_info_result(
        ObjectStatOutcome::Found { content_length: Some(9), last_modified_secs: Some(-3) },
        "c",
        "obj".to_string(),
    )
    .unwrap();
    assert_eq!(info.name, "obj");
    assert_eq!(info.container, "c");
    assert_eq!(info.size, 9);
    assert_eq!(info.created_at, 0);
}

#[test]
fn object_info_wraps_backend_errors_with_context() {
    let e = object_info_result(
        ObjectStatOutcome::Failure("boom".to_string()),
        "c",
        "obj".to_string(),
    )
    .unwrap_err();
    assert_eq!(e.message(), "Failed to get object info: boom");
}

#[test]
fn bucket_listing_search() {
    let buckets = vec![None, Some("alpha".to_string()), Some("beta".to_string())];
    assert!(bucket_listed(&buckets, "alpha"));
    assert!(bucket_listed(&buckets, "beta"));
    assert!(!bucket_listed(&buckets, "gamma"));
    assert!(!bucket_listed(&Vec::new(), "alpha"));
}

#[test]
fn container_info_takes_the_first_match() {
    let buckets = vec![
        (Some("other".to_string()), Some(5)),
        (Some("c".to_string()), Some(100)),
        (Some("c".to_string()), Some(999)),
    ];
    let info = container_info_result(&buckets, "c").unwrap();
    assert_eq!(info.name, "c");
    assert_eq!(info.created_at, 100);
    let e = container_info_result(&buckets, "absent").unwrap_err();
    assert!(matches!(e, CapabilityError::NotFound(_)));
    assert_eq!(e.message(), "Container not found");
}

#[test]
fn one_backend_page_of_keys_unwraps() {
    let keys = vec![Some("a".to_string()), Some("b".to_string())];
    assert_eq!(list_keys(keys), vec!["a".to_string(), "b".to_string()]);
}

#[test]
fn submission_outcomes_wrap_with_context() {
    assert!(submit_result("Failed to create container", Ok(())).is_ok());
    let e = submit_result("Failed to create container", Err("denied".to_string())).unwrap_err();
    assert_eq!(e.message(), "Failed to create container: denied");
}
