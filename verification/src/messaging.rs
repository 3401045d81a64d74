//! Messaging capability: broker messages and the consumer contract.

use vstd::prelude::*;

use crate::errors::CapabilityError;

verus! {

/// A message exchanged with the broker.
#[derive(Debug)]
pub struct BrokerMessage {
    /// Subject the message is published to.
    pub subject: String,
    /// Optional payload.
    pub body: Option<Vec<u8>>,
    /// Subject a reply should be published to, if any.
    pub reply_to: Option<String>,
}

/// Contract of a messaging provider. Timeouts cross the boundary as whole
/// milliseconds. Success of `publish` means the broker accepted the message,
/// not that it was delivered; `request` returns a single reply or a timeout
/// error; `request_multi` collects until the timeout elapses or the cap is
/// reached, whichever comes first.
pub trait Messaging: Sized {
    /// Publish `subject` with the optional `body` and collect a single
    /// reply, or fail with a timeout error when none arrives within
    /// `timeout_ms` milliseconds.
    fn request(&mut self, subject: String, body: Option<Vec<u8>>, timeout_ms: u64) -> (r: Result<
        BrokerMessage,
        CapabilityError,
    >)
        ensures
            r matches Err(e) ==> e is Timeout || e is BackendFault || e is Malformed,
    ;

    /// Collect up to `max_results` replies until `timeout_ms` milliseconds
    /// elapse or the cap is reached, whichever comes first.
    fn request_multi(
        &mut self,
        subject: String,
        body: Option<Vec<u8>>,
        timeout_ms: u64,
        max_results: u32,
    ) -> (r: Result<Vec<BrokerMessage>, CapabilityError>)
        ensures
            r matches Ok(v) ==> v@.len() <= max_results,
            r matches Err(e) ==> e is Timeout || e is BackendFault || e is Malformed,
    ;

    /// Hand `msg` to the broker, fire-and-forget: success means the broker
    /// accepted it, not that it was delivered.
    fn publish(&mut self, msg: BrokerMessage) -> (r: Result<(), CapabilityError>)
        ensures
            r matches Err(e) ==> e is Timeout || e is BackendFault || e is Malformed,
    ;
}

} // verus!
