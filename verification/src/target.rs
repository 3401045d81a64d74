//! Target addressing: interface identifiers, actor identities and call
//! destinations used to route a call when multiple bindings could apply.

use vstd::prelude::*;

verus! {

/// Call target interface identifier: one of the well-known interfaces or a
/// custom namespace/package/interface triple.
#[derive(Debug, Clone, Eq, Hash, PartialEq)]
pub enum TargetInterface {
    /// `wasi:blobstore/blobstore`
    WasiBlobstoreBlobstore,
    /// `wasi:http/outgoing-handler`
    WasiHttpOutgoingHandler,
    /// `wasi:keyvalue/atomic`
    WasiKeyvalueAtomic,
    /// `wasi:keyvalue/eventual`
    WasiKeyvalueEventual,
    /// `wasi:logging/logging`
    WasiLoggingLogging,
    /// `wasmcloud:messaging/consumer`
    WasmcloudMessagingConsumer,
    /// Custom interface
    Custom {
        /// Package namespace
        namespace: String,
        /// Package name
        package: String,
        /// Interface name
        interface: String,
    },
}

/// What parsing a string as a module public key yields: the canonical
/// encoded public key when the string is a well-formed module key, nothing
/// otherwise. The result depends on the characters of the string alone.
pub uninterp spec fn module_key_of(s: Seq<char>) -> Option<Seq<char>>;

/// Relies on `nkeys::KeyPair::from_public_key` and
/// `nkeys::KeyPair::key_pair_type`: decoding is a pure function of the
/// input string, and only a module public key yields a key pair of the
/// module type; `public_key` returns its canonical encoding.
#[verifier::external_body]
fn parse_module_key(s: &str) -> (r: Option<String>)
    ensures
        r matches Some(k) ==> module_key_of(s@) == Some(k@),
        r is None ==> module_key_of(s@) is None,
{
    match nkeys::KeyPair::from_public_key(s) {
        Ok(kp) => match kp.key_pair_type() {
            nkeys::KeyPairType::Module => Some(kp.public_key()),
            _ => None,
        },
        Err(_) => None,
    }
}

/// Actor identifier: a symbolic call alias or a cryptographic public-key
/// identity, holding the canonical encoding of the decoded key material.
#[derive(Debug, Clone)]
pub enum ActorIdentifier {
    /// Actor call alias identifier.
    Alias(String),
    /// Actor public-key identifier, as the canonical encoded public key.
    Key(String),
}

impl ActorIdentifier {
    /// Parse a string: a well-formed module public key becomes a key
    /// identity carrying its canonical encoding, anything else an alias.
    pub fn parse(s: &str) -> (r: ActorIdentifier)
        ensures
            match module_key_of(s@) {
                Some(k) => r matches ActorIdentifier::Key(p) && p@ == k,
                None => r matches ActorIdentifier::Alias(a) && a@ == s@,
            },
    {
        match parse_module_key(s) {
            Some(key) => ActorIdentifier::Key(key),
            None => ActorIdentifier::Alias(String::from_str(s)),
        }
    }

    /// Equality never compares across variants: two aliases compare by
    /// their text, two key identities by their canonical key encoding.
    pub open spec fn same_identity(self, other: ActorIdentifier) -> bool {
        match (self, other) {
            (ActorIdentifier::Alias(l), ActorIdentifier::Alias(r)) => l@ == r@,
            (ActorIdentifier::Key(l), ActorIdentifier::Key(r)) => l@ == r@,
            _ => false,
        }
    }
}

impl core::str::FromStr for ActorIdentifier {
    type Err = core::convert::Infallible;

    fn from_str(s: &str) -> Result<Self, Self::Err> {
        Ok(ActorIdentifier::parse(s))
    }
}

impl PartialEq for ActorIdentifier {
    fn eq(&self, other: &ActorIdentifier) -> (r: bool) {
        match (self, other) {
            (ActorIdentifier::Alias(l), ActorIdentifier::Alias(r)) => *l == *r,
            (ActorIdentifier::Key(l), ActorIdentifier::Key(r)) => *l == *r,
            _ => false,
        }
    }
}

impl vstd::std_specs::cmp::PartialEqSpecImpl for ActorIdentifier {
    open spec fn obeys_eq_spec() -> bool {
        true
    }

    open spec fn eq_spec(&self, other: &ActorIdentifier) -> bool {
        self.same_identity(*other)
    }
}

impl Eq for ActorIdentifier {}

/// Call destination: a named (or default) link, or a specific actor.
#[derive(Debug, Clone, Eq, PartialEq)]
pub enum TargetEntity {
    /// Link target entity, with an optional link name.
    Link(Option<String>),
    /// Actor target entity.
    Actor(ActorIdentifier),
}

} // verus!
