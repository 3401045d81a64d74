//! Error taxonomy of the capability core.

use vstd::prelude::*;

verus! {

/// Errors surfaced by the capability core and its providers.
///
/// `Unconfigured` is produced by the routing layer when no provider is bound
/// for the requested capability kind. `NotFound` reports a missing entity
/// where the contract does not normalize absence into a boolean or an empty
/// result. `BackendFault` wraps a provider's underlying service error other
/// than not-found, `Timeout` a provider-declared timeout, and `Malformed` a
/// structurally invalid caller input.
#[derive(Debug)]
pub enum CapabilityError {
    /// No provider is bound for the capability kind; carries the interface
    /// and method name of the failed call.
    Unconfigured {
        /// Interface whose call could not be routed.
        interface: String,
        /// Method that could not be handled.
        method: String,
    },
    /// The named entity does not exist.
    NotFound(String),
    /// The backing service failed; carries a human-readable context chain.
    BackendFault(String),
    /// A provider-declared timeout elapsed.
    Timeout(String),
    /// The caller's input was structurally invalid.
    Malformed(String),
}

impl CapabilityError {
    /// Human-readable message for the error, naming the failed method for
    /// `Unconfigured` so guests see a failure naming capability and method.
    pub fn message(&self) -> (r: String)
        ensures
            r@ == self.message_spec(),
    {
        match self {
            CapabilityError::Unconfigured { interface: _, method } => {
                let mut s = String::from_str("cannot handle `");
                s.append(method.as_str());
                s.append("`");
                s
            }
            CapabilityError::NotFound(m) => m.clone(),
            CapabilityError::BackendFault(m) => m.clone(),
            CapabilityError::Timeout(m) => m.clone(),
            CapabilityError::Malformed(m) => m.clone(),
        }
    }

    /// The message `message` returns, as a sequence of characters.
    pub open spec fn message_spec(&self) -> Seq<char> {
        match self {
            CapabilityError::Unconfigured { interface, method } => {
                "cannot handle `"@ + method@ + "`"@
            }
            CapabilityError::NotFound(m) => m@,
            CapabilityError::BackendFault(m) => m@,
            CapabilityError::Timeout(m) => m@,
            CapabilityError::Malformed(m) => m@,
        }
    }
}

/// A provider-side failure: the backing service faulted, or a
/// provider-declared timeout elapsed. These are the only error classes a
/// provider may surface where the contract does not normalize absence or
/// reject malformed input; in particular a provider never reports
/// `Unconfigured`, which belongs to the routing layer alone.
pub open spec fn is_provider_fault(e: CapabilityError) -> bool {
    e is BackendFault || e is Timeout
}

/// Wrap an error with call-specific context, prepending `context` to its
/// message as anyhow-style chains do. Message-bearing variants keep their
/// variant; a wrapped `Unconfigured` becomes a `BackendFault`, since the
/// wrapping call treats it as an underlying failure.
pub fn with_context(context: &str, e: CapabilityError) -> (r: CapabilityError)
    ensures
        r.message_spec() == context@ + ": "@ + e.message_spec(),
        e is NotFound ==> r is NotFound,
        e is BackendFault ==> r is BackendFault,
        e is Timeout ==> r is Timeout,
        e is Malformed ==> r is Malformed,
        e is Unconfigured ==> r is BackendFault,
{
    let mut s = String::from_str(context);
    s.append(": ");
    let m = e.message();
    s.append(m.as_str());
    match e {
        CapabilityError::NotFound(_) => CapabilityError::NotFound(s),
        CapabilityError::BackendFault(_) => CapabilityError::BackendFault(s),
        CapabilityError::Timeout(_) => CapabilityError::Timeout(s),
        CapabilityError::Malformed(_) => CapabilityError::Malformed(s),
        CapabilityError::Unconfigured { .. } => CapabilityError::BackendFault(s),
    }
}

} // verus!
