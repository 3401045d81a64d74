//! Routing behaviour of the capability handler: unconfigured kinds fail
//! with an error naming interface and method and have no other effect,
//! bindings are rebound atomically returning the previous one, and the
//! builder freezes into a handler with the same bindings.

use wasi_cloud_core::{
    format_opt, proxy, unconfigured, BrokerMessage, CapabilityError, Handler, HandlerBuilder,
    HttpRequest, HttpResponse, IncomingHttp, KeyValueAtomic, MemoryBlobstore, MemoryKeyValue,
    Messaging, OutgoingHttp, OutgoingHttpRequest,
};

type TestHandler = Handler<MemoryBlobstore, (), (), MemoryKeyValue, MemoryKeyValue, NoopMessaging>;

/// A messaging provider that accepts everything, standing in for a broker
/// client.
struct NoopMessaging;

impl Messaging for NoopMessaging {
    fn request(
        &mut self,
        subject: String,
        _body: Option<Vec<u8>>,
        _timeout_ms: u64,
    ) -> Result<BrokerMessage, CapabilityError> {
        Ok(BrokerMessage { subject, body: None, reply_to: None })
    }

    fn request_multi(
        &mut self,
        _subject: String,
        _body: Option<Vec<u8>>,
        _timeout_ms: u64,
        _max_results: u32,
    ) -> Result<Vec<BrokerMessage>, CapabilityError> {
        Ok(Vec::new())
    }

    fn publish(&mut self, _msg: BrokerMessage) -> Result<(), CapabilityError> {
        Ok(())
    }
}

fn assert_unconfigured(e: CapabilityError, interface: &str, method: &str) {
    match e {
        CapabilityError::Unconfigured { interface: i, method: m } => {
            assert_eq!(i, interface);
            assert_eq!(m, method);
        }
        _ => panic!("expected an unconfigured error"),
    }
}

#[test]
fn unconfigured_kind_fails_naming_interface_and_method() {
    let mut handler: TestHandler = Handler::new();
    let e = handler.increment("b", "k".to_string(), 1).unwrap_err();
    assert_unconfigured(e, "KeyvalueAtomic", "wasi:keyvalue/atomic.increment");
    let e = handler.compare_and_swap("b", "k".to_string(), 0, 1).unwrap_err();
    assert_unconfigured(e, "KeyvalueAtomic", "wasi:keyvalue/atomic.compare-and-swap");
    let e = handler.create_container("c").unwrap_err();
    assert_unconfigured(e, "Blobstore", "wasi:blobstore/blobstore.create-container");
    let e = handler.get("b", "k".to_string()).unwrap_err();
    assert_unconfigured(e, "KeyvalueEventual", "wasi:keyvalue/eventual.get");
    let e = handler.request("s".to_string(), None, 10).unwrap_err();
    assert_unconfigured(e, "Messaging", "wasmcloud:messaging/consumer.request");
    let e = handler.publish(BrokerMessage {
        subject: "s".to_string(),
        body: None,
        reply_to: None,
    })
    .unwrap_err();
    assert_unconfigured(e, "Messaging", "wasmcloud:messaging/consumer.publish");
}

#[test]
fn unconfigured_message_names_the_method() {
    let e = unconfigured("KeyvalueAtomic", "wasi:keyvalue/atomic.increment");
    assert_eq!(e.message(), "cannot handle `wasi:keyvalue/atomic.increment`");
}

#[test]
fn unconfigured_call_has_no_side_effect() {
    let mut handler: TestHandler = Handler::new();
    let _ = handler.increment("b", "k".to_string(), 7);
    let mut kv = MemoryKeyValue::new();
    handler.replace_keyvalue_atomic(kv);
    // The failed call left no trace: the counter starts from zero.
    assert_eq!(handler.increment("b", "k".to_string(), 5).unwrap(), 5);
    // And an unconfigured call on another kind leaves the bound one alone.
    let _ = handler.create_container("c");
    assert_eq!(handler.increment("b", "k".to_string(), 1).unwrap(), 6);
    kv = handler.replace_keyvalue_atomic(MemoryKeyValue::new()).unwrap();
    assert_eq!(kv.counters.len(), 2);
}

#[test]
fn rebinding_returns_the_previous_binding() {
    let mut handler: TestHandler = Handler::new();
    let mut first = MemoryKeyValue::new();
    first.increment("b", "k".to_string(), 41).unwrap();
    assert!(handler.replace_keyvalue_atomic(first).is_none());
    let second = MemoryKeyValue::new();
    let previous = handler.replace_keyvalue_atomic(second).unwrap();
    // The previous binding still carries its state.
    assert_eq!(previous.counters.len(), 1);
    // The new binding is in place: the counter starts from zero again.
    assert_eq!(handler.increment("b", "k".to_string(), 1).unwrap(), 1);
}

#[test]
fn scenario_blobstore_only() {
    // Bind only a blobstore provider.
    let mut handler: TestHandler = Handler::new();
    handler.replace_blobstore(MemoryBlobstore::new());
    // A call on the atomic key-value kind fails naming KeyvalueAtomic.
    let e = handler.increment("b", "k".to_string(), 1).unwrap_err();
    assert_unconfigured(e, "KeyvalueAtomic", "wasi:keyvalue/atomic.increment");
    // The blobstore kind works.
    handler.create_container("logs").unwrap();
    assert!(handler.container_exists("logs").unwrap());
    // A read of a missing object yields a zero-byte stream of length 0.
    let (data, len) = handler.get_data("logs", "missing.txt".to_string(), 0, 0).unwrap();
    assert_eq!(data.len(), 0);
    assert_eq!(len, 0);
}

#[test]
fn builder_freezes_into_handler() {
    let builder: HandlerBuilder<
        MemoryBlobstore,
        (),
        (),
        MemoryKeyValue,
        MemoryKeyValue,
        NoopMessaging,
    > = HandlerBuilder::new()
        .keyvalue_atomic(MemoryKeyValue::new())
        .messaging(NoopMessaging);
    let mut handler: TestHandler = Handler::from(builder);
    assert_eq!(handler.increment("b", "k".to_string(), 3).unwrap(), 3);
    let reply = handler.request("subject".to_string(), None, 10).unwrap();
    assert_eq!(reply.subject, "subject");
    let e = handler.create_container("c").unwrap_err();
    assert_unconfigured(e, "Blobstore", "wasi:blobstore/blobstore.create-container");
    // Thawing keeps the bindings.
    let builder = HandlerBuilder::from(handler);
    let mut handler: TestHandler = Handler::from(builder);
    assert_eq!(handler.increment("b", "k".to_string(), 1).unwrap(), 4);
}

#[test]
fn describe_renders_each_binding() {
    let mut handler: TestHandler = Handler::new();
    assert_eq!(
        handler.describe(),
        "Handler { blobstore: unset, incoming_http: unset, keyvalue_atomic: unset, \
         keyvalue_eventual: unset, messaging: unset, outgoing_http: unset }"
    );
    handler.replace_blobstore(MemoryBlobstore::new());
    handler.replace_keyvalue_atomic(MemoryKeyValue::new());
    assert_eq!(
        handler.describe(),
        "Handler { blobstore: set, incoming_http: unset, keyvalue_atomic: set, \
         keyvalue_eventual: unset, messaging: unset, outgoing_http: unset }"
    );
    let builder: HandlerBuilder<
        MemoryBlobstore,
        (),
        (),
        MemoryKeyValue,
        MemoryKeyValue,
        NoopMessaging,
    > = HandlerBuilder::new();
    assert_eq!(
        builder.describe(),
        "HandlerBuilder { blobstore: unset, incoming_http: unset, keyvalue_atomic: unset, \
         keyvalue_eventual: unset, messaging: unset, outgoing_http: unset }"
    );
}

/// An HTTP provider that echoes the request body back, standing in for a
/// real handler.
struct EchoHttp;

impl IncomingHttp for EchoHttp {
    fn handle(&mut self, request: HttpRequest) -> Result<HttpResponse, CapabilityError> {
        Ok(HttpResponse { status: 200, headers: Vec::new(), body: request.body })
    }
}

impl OutgoingHttp for EchoHttp {
    fn handle(&mut self, request: OutgoingHttpRequest) -> Result<HttpResponse, CapabilityError> {
        Ok(HttpResponse { status: 200, headers: Vec::new(), body: request.request.body })
    }
}

fn get_request(body: Vec<u8>) -> HttpRequest {
    HttpRequest {
        method: "GET".to_string(),
        uri: "/".to_string(),
        headers: Vec::new(),
        body,
    }
}

#[test]
fn http_kinds_route_once_bound() {
    let mut handler: Handler<(), EchoHttp, EchoHttp, (), (), ()> = Handler::new();
    let e = handler.handle_incoming_http(get_request(vec![1])).unwrap_err();
    assert_unconfigured(e, "IncomingHttp", "wasi:http/incoming-handler.handle");
    let outgoing = OutgoingHttpRequest {
        use_tls: true,
        authority: "example.test".to_string(),
        request: get_request(vec![2]),
        connect_timeout_ms: 1000,
        first_byte_timeout_ms: 2000,
        between_bytes_timeout_ms: 3000,
    };
    let e = handler.handle_outgoing_http(outgoing).unwrap_err();
    assert_unconfigured(e, "OutgoingHttp", "wasi:http/outgoing-handler.handle");
    handler.replace_incoming_http(EchoHttp);
    handler.replace_outgoing_http(EchoHttp);
    let resp = handler.handle_incoming_http(get_request(vec![7, 8])).unwrap();
    assert_eq!(resp.status, 200);
    assert_eq!(resp.body, vec![7, 8]);
    let outgoing = OutgoingHttpRequest {
        use_tls: false,
        authority: "example.test".to_string(),
        request: get_request(vec![9]),
        connect_timeout_ms: 1,
        first_byte_timeout_ms: 1,
        between_bytes_timeout_ms: 1,
    };
    let resp = handler.handle_outgoing_http(outgoing).unwrap();
    assert_eq!(resp.body, vec![9]);
}

#[test]
fn eventual_keyvalue_routes_through_the_handler() {
    let mut handler: TestHandler = Handler::new();
    handler.replace_keyvalue_eventual(MemoryKeyValue::new());
    assert!(handler.get("b", "k".to_string()).unwrap().is_none());
    handler.set("b", "k".to_string(), vec![5, 6]).unwrap();
    assert!(handler.has_entry("b", "k".to_string()).unwrap());
    let (data, len) = handler.get("b", "k".to_string()).unwrap().unwrap();
    assert_eq!(data, vec![5, 6]);
    assert_eq!(len, 2);
    handler.delete("b", "k".to_string()).unwrap();
    assert!(!handler.has_entry("b", "k".to_string()).unwrap());
}

#[test]
fn proxy_and_format_opt() {
    let bound: Option<u32> = Some(7);
    let unbound: Option<u32> = None;
    assert_eq!(format_opt(&bound), "set");
    assert_eq!(format_opt(&unbound), "unset");
    assert_eq!(*proxy(&bound, "Blobstore", "method").unwrap(), 7);
    let e = proxy(&unbound, "Blobstore", "some.method").unwrap_err();
    assert_eq!(e.message(), "cannot handle `some.method`");
}
