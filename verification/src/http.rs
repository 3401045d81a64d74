//! HTTP capabilities: plain request/response shapes and the handler
//! contracts for inbound and outbound HTTP.

use vstd::prelude::*;

use crate::errors::{is_provider_fault, CapabilityError};

verus! {

/// An HTTP request as plain values: the shape the capability core routes.
#[derive(Debug)]
pub struct HttpRequest {
    /// Request method, e.g. "GET".
    pub method: String,
    /// Request target, e.g. "/index.html".
    pub uri: String,
    /// Header name/value pairs.
    pub headers: Vec<(String, String)>,
    /// Request body.
    pub body: Vec<u8>,
}

/// An HTTP response as plain values.
#[derive(Debug)]
pub struct HttpResponse {
    /// Status code.
    pub status: u16,
    /// Header name/value pairs.
    pub headers: Vec<(String, String)>,
    /// Response body.
    pub body: Vec<u8>,
}

/// An outbound HTTP request together with its only configuration surface:
/// the TLS flag and three timeouts, each an upper bound the provider must
/// honor, failing with a timeout error rather than hanging past it.
pub struct OutgoingHttpRequest {
    /// Whether to use TLS.
    pub use_tls: bool,
    /// Authority to connect to.
    pub authority: String,
    /// The request itself.
    pub request: HttpRequest,
    /// Upper bound on the initial connect, in milliseconds.
    pub connect_timeout_ms: u64,
    /// Upper bound on receiving the first byte of the response body, in
    /// milliseconds.
    pub first_byte_timeout_ms: u64,
    /// Upper bound on receiving each next chunk of the response body, in
    /// milliseconds.
    pub between_bytes_timeout_ms: u64,
}

/// Contract of an inbound-HTTP provider: a single handle call. A failure
/// is a provider fault, a timeout, or a rejection of malformed input —
/// never a routing error, and absence is a response status, not an error.
pub trait IncomingHttp: Sized {
    /// Handle one inbound request.
    fn handle(&mut self, request: HttpRequest) -> (r: Result<HttpResponse, CapabilityError>)
        ensures
            r matches Err(e) ==> is_provider_fault(e) || e is Malformed,
    ;
}

/// Contract of an outbound-HTTP provider: a single handle call whose
/// timeouts are upper bounds; exceeding one fails with a timeout error
/// rather than hanging past it. A failure is a provider fault, a timeout,
/// or a rejection of malformed input — never a routing error.
pub trait OutgoingHttp: Sized {
    /// Perform one outbound request.
    fn handle(&mut self, request: OutgoingHttpRequest) -> (r: Result<
        HttpResponse,
        CapabilityError,
    >)
        ensures
            r matches Err(e) ==> is_provider_fault(e) || e is Malformed,
    ;
}

} // verus!
