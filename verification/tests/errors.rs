//! The error taxonomy: the message each variant renders and how context
//! wrapping preserves the variant.

use wasi_cloud_core::{with_context, CapabilityError};

#[test]
fn each_variant_renders_its_message() {
    let e = CapabilityError::Unconfigured {
        interface: "Blobstore".to_string(),
        method: "wasi:blobstore/container.get-data".to_string(),
    };
    assert_eq!(e.message(), "cannot handle `wasi:blobstore/container.get-data`");
    assert_eq!(CapabilityError::NotFound("Container not found".to_string()).message(),
        "Container not found");
    assert_eq!(CapabilityError::BackendFault("connection reset".to_string()).message(),
        "connection reset");
    assert_eq!(CapabilityError::Timeout("request timed out".to_string()).message(),
        "request timed out");
    assert_eq!(CapabilityError::Malformed("empty subject".to_string()).message(),
        "empty subject");
}

#[test]
fn context_wrapping_preserves_the_variant() {
    let e = with_context("get", CapabilityError::NotFound("x".to_string()));
    assert!(matches!(e, CapabilityError::NotFound(_)));
    assert_eq!(e.message(), "get: x");
    let e = with_context("send", CapabilityError::Timeout("t".to_string()));
    assert!(matches!(e, CapabilityError::Timeout(_)));
    let e = with_context("parse", CapabilityError::Malformed("m".to_string()));
    assert!(matches!(e, CapabilityError::Malformed(_)));
    let e = with_context("call", CapabilityError::BackendFault("b".to_string()));
    assert!(matches!(e, CapabilityError::BackendFault(_)));
    // A wrapped routing failure surfaces as an underlying fault.
    let e = with_context(
        "dispatch",
        CapabilityError::Unconfigured { interface: "X".to_string(), method: "m".to_string() },
    );
    assert!(matches!(e, CapabilityError::BackendFault(_)));
    assert_eq!(e.message(), "dispatch: cannot handle `m`");
}
