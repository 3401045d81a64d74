//! Host execution context: per-guest-instance state bundling the capability
//! handler with the guest-visible standard streams.
//!
//! One context is created per guest instantiation and destroyed at its
//! termination. The handler and its providers are shared by reference
//! across contexts by the embedder; capability bindings may be hot-swapped
//! by the embedder through the handler's replace operations, never by guest
//! code. The engine-facing resources that surround this state — resource
//! tables and sandbox contexts — belong to the embedding engine, not to
//! this core.

use vstd::prelude::*;

use crate::handler::Handler;
use crate::stdio::StdioStream;

verus! {

/// Per-guest-instance state: the capability handler and the three
/// swappable standard streams, `In` backing standard input and `Out`
/// backing standard output and standard error.
pub struct Host<Bs, Ih, Oh, Ka, Ke, Ms, In, Out> {
    /// Capability routing for this guest instance.
    pub handler: Handler<Bs, Ih, Oh, Ka, Ke, Ms>,
    /// Swappable standard input.
    pub stdin: StdioStream<In>,
    /// Swappable standard output.
    pub stdout: StdioStream<Out>,
    /// Swappable standard error.
    pub stderr: StdioStream<Out>,
}

impl<Bs, Ih, Oh, Ka, Ke, Ms, In, Out> Host<Bs, Ih, Oh, Ka, Ke, Ms, In, Out> {
    /// A fresh context: no capability bound, every standard stream unset —
    /// each behaves as a closed stream until the embedder binds one.
    pub fn new() -> (r: Host<Bs, Ih, Oh, Ka, Ke, Ms, In, Out>)
        ensures
            r.handler.blobstore is None,
            r.handler.incoming_http is None,
            r.handler.outgoing_http is None,
            r.handler.keyvalue_atomic is None,
            r.handler.keyvalue_eventual is None,
            r.handler.messaging is None,
            r.stdin.inner is None,
            r.stdout.inner is None,
            r.stderr.inner is None,
    {
        Host {
            handler: Handler::new(),
            stdin: StdioStream::unset(),
            stdout: StdioStream::unset(),
            stderr: StdioStream::unset(),
        }
    }
}

} // verus!
