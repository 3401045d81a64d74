//! Capability routing: a `Handler` binds at most one provider per capability
//! kind and routes typed calls to it, or fails with an "unconfigured" error.

use vstd::prelude::*;

use crate::errors::CapabilityError;

verus! {

/// Routes capability calls to at most one bound provider per capability kind.
///
/// Each type parameter is the provider handle type for one kind; an absent
/// binding makes every call on that kind fail with
/// [`CapabilityError::Unconfigured`] and leave the handler unchanged.
pub struct Handler<Bs, Ih, Oh, Ka, Ke, Ms> {
    /// Bound blobstore provider, if any.
    pub blobstore: Option<Bs>,
    /// Bound inbound-HTTP provider, if any.
    pub incoming_http: Option<Ih>,
    /// Bound outbound-HTTP provider, if any.
    pub outgoing_http: Option<Oh>,
    /// Bound atomic key-value provider, if any.
    pub keyvalue_atomic: Option<Ka>,
    /// Bound eventually-consistent key-value provider, if any.
    pub keyvalue_eventual: Option<Ke>,
    /// Bound messaging provider, if any.
    pub messaging: Option<Ms>,
}

/// Look up the bound provider for one capability kind, or report the call as
/// unhandleable, naming the interface and the failed method.
pub fn proxy<'a, T>(field: &'a Option<T>, interface: &str, method: &str) -> (r: Result<
    &'a T,
    CapabilityError,
>)
    ensures
        match r {
            Ok(p) => field matches Some(f) && p == f,
            Err(e) => field is None && (e matches CapabilityError::Unconfigured {
                interface: i,
                method: m,
            } && i@ == interface@ && m@ == method@),
        },
{
    match field {
        Some(p) => Ok(p),
        None => Err(
            CapabilityError::Unconfigured {
                interface: String::from_str(interface),
                method: String::from_str(method),
            },
        ),
    }
}

/// The error produced when no provider is bound for the capability kind named
/// `interface` and the call to `method` cannot be handled.
pub fn unconfigured(interface: &str, method: &str) -> (e: CapabilityError)
    ensures
        e matches CapabilityError::Unconfigured { interface: i, method: m } && i@ == interface@
            && m@ == method@,
{
    CapabilityError::Unconfigured {
        interface: String::from_str(interface),
        method: String::from_str(method),
    }
}

/// Holds exactly when `e` is the [`CapabilityError::Unconfigured`] error for
/// the given interface and method names.
pub open spec fn is_unconfigured_for(e: CapabilityError, interface: Seq<char>, method: Seq<char>) -> bool {
    e matches CapabilityError::Unconfigured { interface: i, method: m } && i@ == interface && m@
        == method
}

/// "set" when a binding is present, "unset" otherwise; used when rendering a
/// handler for diagnostics.
pub fn format_opt<T>(opt: &Option<T>) -> (r: &'static str)
    ensures
        r@ == opt_label(opt is Some),
{
    if opt.is_some() {
        "set"
    } else {
        "unset"
    }
}

/// The label [`format_opt`] renders for a binding: "set" or "unset".
pub open spec fn opt_label(set: bool) -> Seq<char> {
    if set {
        "set"@
    } else {
        "unset"@
    }
}

/// The one-step effect of rebinding a capability kind: the new provider is
/// bound and the immediately-previous binding (or none) is handed back.
pub open spec fn rebind<T>(pre: Option<T>, provider: T) -> (Option<T>, Option<T>) {
    (Some(provider), pre)
}

/// Law: rebinding a kind returns the immediately-previous binding — after
/// binding `a`, rebinding to `b` hands back `a`, whatever was bound before.
pub proof fn lemma_rebind_returns_previous<T>(pre: Option<T>, a: T, b: T)
    ensures
        ({
            let (bound_a, _) = rebind(pre, a);
            let (bound_b, prev) = rebind(bound_a, b);
            prev == Some(a) && bound_b == Some(b)
        }),
{
}

impl<Bs, Ih, Oh, Ka, Ke, Ms> Handler<Bs, Ih, Oh, Ka, Ke, Ms> {
    /// All bindings other than the blobstore one are the same in `pre` and `post`.
    pub open spec fn same_but_blobstore(
        pre: Handler<Bs, Ih, Oh, Ka, Ke, Ms>,
        post: Handler<Bs, Ih, Oh, Ka, Ke, Ms>,
    ) -> bool {
        &&& post.incoming_http == pre.incoming_http
        &&& post.outgoing_http == pre.outgoing_http
        &&& post.keyvalue_atomic == pre.keyvalue_atomic
        &&& post.keyvalue_eventual == pre.keyvalue_eventual
        &&& post.messaging == pre.messaging
    }

    /// All bindings other than the inbound-HTTP one are the same in `pre` and `post`.
    pub open spec fn same_but_incoming_http(
        pre: Handler<Bs, Ih, Oh, Ka, Ke, Ms>,
        post: Handler<Bs, Ih, Oh, Ka, Ke, Ms>,
    ) -> bool {
        &&& post.blobstore == pre.blobstore
        &&& post.outgoing_http == pre.outgoing_http
        &&& post.keyvalue_atomic == pre.keyvalue_atomic
        &&& post.keyvalue_eventual == pre.keyvalue_eventual
        &&& post.messaging == pre.messaging
    }

    /// All bindings other than the outbound-HTTP one are the same in `pre` and `post`.
    pub open spec fn same_but_outgoing_http(
        pre: Handler<Bs, Ih, Oh, Ka, Ke, Ms>,
        post: Handler<Bs, Ih, Oh, Ka, Ke, Ms>,
    ) -> bool {
        &&& post.blobstore == pre.blobstore
        &&& post.incoming_http == pre.incoming_http
        &&& post.keyvalue_atomic == pre.keyvalue_atomic
        &&& post.keyvalue_eventual == pre.keyvalue_eventual
        &&& post.messaging == pre.messaging
    }

    /// All bindings other than the atomic key-value one are the same in `pre` and `post`.
    pub open spec fn same_but_keyvalue_atomic(
        pre: Handler<Bs, Ih, Oh, Ka, Ke, Ms>,
        post: Handler<Bs, Ih, Oh, Ka, Ke, Ms>,
    ) -> bool {
        &&& post.blobstore == pre.blobstore
        &&& post.incoming_http == pre.incoming_http
        &&& post.outgoing_http == pre.outgoing_http
        &&& post.keyvalue_eventual == pre.keyvalue_eventual
        &&& post.messaging == pre.messaging
    }

    /// All bindings other than the eventual key-value one are the same in `pre` and `post`.
    pub open spec fn same_but_keyvalue_eventual(
        pre: Handler<Bs, Ih, Oh, Ka, Ke, Ms>,
        post: Handler<Bs, Ih, Oh, Ka, Ke, Ms>,
    ) -> bool {
        &&& post.blobstore == pre.blobstore
        &&& post.incoming_http == pre.incoming_http
        &&& post.outgoing_http == pre.outgoing_http
        &&& post.keyvalue_atomic == pre.keyvalue_atomic
        &&& post.messaging == pre.messaging
    }

    /// All bindings other than the messaging one are the same in `pre` and `post`.
    pub open spec fn same_but_messaging(
        pre: Handler<Bs, Ih, Oh, Ka, Ke, Ms>,
        post: Handler<Bs, Ih, Oh, Ka, Ke, Ms>,
    ) -> bool {
        &&& post.blobstore == pre.blobstore
        &&& post.incoming_http == pre.incoming_http
        &&& post.outgoing_http == pre.outgoing_http
        &&& post.keyvalue_atomic == pre.keyvalue_atomic
        &&& post.keyvalue_eventual == pre.keyvalue_eventual
    }

    /// A handler with no binding for any capability kind.
    pub fn new() -> (r: Handler<Bs, Ih, Oh, Ka, Ke, Ms>)
        ensures
            r.blobstore is None,
            r.incoming_http is None,
            r.outgoing_http is None,
            r.keyvalue_atomic is None,
            r.keyvalue_eventual is None,
            r.messaging is None,
    {
        Handler {
            blobstore: None,
            incoming_http: None,
            outgoing_http: None,
            keyvalue_atomic: None,
            keyvalue_eventual: None,
            messaging: None,
        }
    }

    /// Render the handler for diagnostics, each binding shown as "set" or
    /// "unset".
    pub fn describe(&self) -> (r: String)
        ensures
            r@ == "Handler { blobstore: "@ + opt_label(self.blobstore is Some)
                + ", incoming_http: "@ + opt_label(self.incoming_http is Some)
                + ", keyvalue_atomic: "@ + opt_label(self.keyvalue_atomic is Some)
                + ", keyvalue_eventual: "@ + opt_label(self.keyvalue_eventual is Some)
                + ", messaging: "@ + opt_label(self.messaging is Some) + ", outgoing_http: "@
                + opt_label(self.outgoing_http is Some) + " }"@,
    {
        let mut s = String::from_str("Handler { blobstore: ");
        s.append(format_opt(&self.blobstore));
        s.append(", incoming_http: ");
        s.append(format_opt(&self.incoming_http));
        s.append(", keyvalue_atomic: ");
        s.append(format_opt(&self.keyvalue_atomic));
        s.append(", keyvalue_eventual: ");
        s.append(format_opt(&self.keyvalue_eventual));
        s.append(", messaging: ");
        s.append(format_opt(&self.messaging));
        s.append(", outgoing_http: ");
        s.append(format_opt(&self.outgoing_http));
        s.append(" }");
        s
    }

    /// Swap in a new blobstore binding, returning the immediately-previous one.
    pub fn replace_blobstore(&mut self, blobstore: Bs) -> (prev: Option<Bs>)
        ensures
            (final(self).blobstore, prev) == rebind(old(self).blobstore, blobstore),
            Self::same_but_blobstore(*old(self), *final(self)),
    {
        let prev = self.blobstore.take();
        self.blobstore = Some(blobstore);
        prev
    }

    /// Swap in a new inbound-HTTP binding, returning the immediately-previous one.
    pub fn replace_incoming_http(&mut self, incoming_http: Ih) -> (prev: Option<Ih>)
        ensures
            (final(self).incoming_http, prev) == rebind(old(self).incoming_http, incoming_http),
            Self::same_but_incoming_http(*old(self), *final(self)),
    {
        let prev = self.incoming_http.take();
        self.incoming_http = Some(incoming_http);
        prev
    }

    /// Swap in a new outbound-HTTP binding, returning the immediately-previous one.
    pub fn replace_outgoing_http(&mut self, outgoing_http: Oh) -> (prev: Option<Oh>)
        ensures
            (final(self).outgoing_http, prev) == rebind(old(self).outgoing_http, outgoing_http),
            Self::same_but_outgoing_http(*old(self), *final(self)),
    {
        let prev = self.outgoing_http.take();
        self.outgoing_http = Some(outgoing_http);
        prev
    }

    /// Swap in a new atomic key-value binding, returning the immediately-previous one.
    pub fn replace_keyvalue_atomic(&mut self, keyvalue_atomic: Ka) -> (prev: Option<Ka>)
        ensures
            (final(self).keyvalue_atomic, prev) == rebind(old(self).keyvalue_atomic, keyvalue_atomic),
            Self::same_but_keyvalue_atomic(*old(self), *final(self)),
    {
        let prev = self.keyvalue_atomic.take();
        self.keyvalue_atomic = Some(keyvalue_atomic);
        prev
    }

    /// Swap in a new eventual key-value binding, returning the immediately-previous one.
    pub fn replace_keyvalue_eventual(&mut self, keyvalue_eventual: Ke) -> (prev: Option<Ke>)
        ensures
            (final(self).keyvalue_eventual, prev) == rebind(old(self).keyvalue_eventual, keyvalue_eventual),
            Self::same_but_keyvalue_eventual(*old(self), *final(self)),
    {
        let prev = self.keyvalue_eventual.take();
        self.keyvalue_eventual = Some(keyvalue_eventual);
        prev
    }

    /// Swap in a new messaging binding, returning the immediately-previous one.
    pub fn replace_messaging(&mut self, messaging: Ms) -> (prev: Option<Ms>)
        ensures
            (final(self).messaging, prev) == rebind(old(self).messaging, messaging),
            Self::same_but_messaging(*old(self), *final(self)),
    {
        let prev = self.messaging.take();
        self.messaging = Some(messaging);
        prev
    }
}

/// Construction-time counterpart of [`Handler`]: each setter returns a new
/// builder with one binding replaced; freezing converts it into a `Handler`.
pub struct HandlerBuilder<Bs, Ih, Oh, Ka, Ke, Ms> {
    /// Blobstore provider to bind, if any.
    pub blobstore: Option<Bs>,
    /// Inbound-HTTP provider to bind, if any.
    pub incoming_http: Option<Ih>,
    /// Outbound-HTTP provider to bind, if any.
    pub outgoing_http: Option<Oh>,
    /// Atomic key-value provider to bind, if any.
    pub keyvalue_atomic: Option<Ka>,
    /// Eventually-consistent key-value provider to bind, if any.
    pub keyvalue_eventual: Option<Ke>,
    /// Messaging provider to bind, if any.
    pub messaging: Option<Ms>,
}

impl<Bs, Ih, Oh, Ka, Ke, Ms> HandlerBuilder<Bs, Ih, Oh, Ka, Ke, Ms> {
    /// A builder with no binding for any capability kind.
    pub fn new() -> (r: HandlerBuilder<Bs, Ih, Oh, Ka, Ke, Ms>)
        ensures
            r.blobstore is None,
            r.incoming_http is None,
            r.outgoing_http is None,
            r.keyvalue_atomic is None,
            r.keyvalue_eventual is None,
            r.messaging is None,
    {
        HandlerBuilder {
            blobstore: None,
            incoming_http: None,
            outgoing_http: None,
            keyvalue_atomic: None,
            keyvalue_eventual: None,
            messaging: None,
        }
    }

    /// Render the builder for diagnostics, each binding shown as "set" or
    /// "unset".
    pub fn describe(&self) -> (r: String)
        ensures
            r@ == "HandlerBuilder { blobstore: "@ + opt_label(self.blobstore is Some)
                + ", incoming_http: "@ + opt_label(self.incoming_http is Some)
                + ", keyvalue_atomic: "@ + opt_label(self.keyvalue_atomic is Some)
                + ", keyvalue_eventual: "@ + opt_label(self.keyvalue_eventual is Some)
                + ", messaging: "@ + opt_label(self.messaging is Some) + ", outgoing_http: "@
                + opt_label(self.outgoing_http is Some) + " }"@,
    {
        let mut s = String::from_str("HandlerBuilder { blobstore: ");
        s.append(format_opt(&self.blobstore));
        s.append(", incoming_http: ");
        s.append(format_opt(&self.incoming_http));
        s.append(", keyvalue_atomic: ");
        s.append(format_opt(&self.keyvalue_atomic));
        s.append(", keyvalue_eventual: ");
        s.append(format_opt(&self.keyvalue_eventual));
        s.append(", messaging: ");
        s.append(format_opt(&self.messaging));
        s.append(", outgoing_http: ");
        s.append(format_opt(&self.outgoing_http));
        s.append(" }");
        s
    }

    /// Set the blobstore binding.
    pub fn blobstore(self, blobstore: Bs) -> (r: Self)
        ensures
            r == (HandlerBuilder { blobstore: Some(blobstore), ..self }),
    {
        HandlerBuilder { blobstore: Some(blobstore), ..self }
    }

    /// Set the inbound-HTTP binding.
    pub fn incoming_http(self, incoming_http: Ih) -> (r: Self)
        ensures
            r == (HandlerBuilder { incoming_http: Some(incoming_http), ..self }),
    {
        HandlerBuilder { incoming_http: Some(incoming_http), ..self }
    }

    /// Set the outbound-HTTP binding.
    pub fn outgoing_http(self, outgoing_http: Oh) -> (r: Self)
        ensures
            r == (HandlerBuilder { outgoing_http: Some(outgoing_http), ..self }),
    {
        HandlerBuilder { outgoing_http: Some(outgoing_http), ..self }
    }

    /// Set the atomic key-value binding.
    pub fn keyvalue_atomic(self, keyvalue_atomic: Ka) -> (r: Self)
        ensures
            r == (HandlerBuilder { keyvalue_atomic: Some(keyvalue_atomic), ..self }),
    {
        HandlerBuilder { keyvalue_atomic: Some(keyvalue_atomic), ..self }
    }

    /// Set the eventually-consistent key-value binding.
    pub fn keyvalue_eventual(self, keyvalue_eventual: Ke) -> (r: Self)
        ensures
            r == (HandlerBuilder { keyvalue_eventual: Some(keyvalue_eventual), ..self }),
    {
        HandlerBuilder { keyvalue_eventual: Some(keyvalue_eventual), ..self }
    }

    /// Set the messaging binding.
    pub fn messaging(self, messaging: Ms) -> (r: Self)
        ensures
            r == (HandlerBuilder { messaging: Some(messaging), ..self }),
    {
        HandlerBuilder { messaging: Some(messaging), ..self }
    }
}

impl<Bs, Ih, Oh, Ka, Ke, Ms> From<HandlerBuilder<Bs, Ih, Oh, Ka, Ke, Ms>> for Handler<Bs, Ih, Oh, Ka, Ke, Ms> {
    /// Freeze a builder into a handler with the same bindings.
    fn from(builder: HandlerBuilder<Bs, Ih, Oh, Ka, Ke, Ms>) -> (r: Self) {
        Handler {
            blobstore: builder.blobstore,
            incoming_http: builder.incoming_http,
            outgoing_http: builder.outgoing_http,
            keyvalue_atomic: builder.keyvalue_atomic,
            keyvalue_eventual: builder.keyvalue_eventual,
            messaging: builder.messaging,
        }
    }
}

impl<Bs, Ih, Oh, Ka, Ke, Ms> vstd::std_specs::convert::FromSpecImpl<HandlerBuilder<Bs, Ih, Oh, Ka, Ke, Ms>> for Handler<Bs, Ih, Oh, Ka, Ke, Ms> {
    open spec fn obeys_from_spec() -> bool {
        true
    }

    open spec fn from_spec(builder: HandlerBuilder<Bs, Ih, Oh, Ka, Ke, Ms>) -> Self {
        Handler {
            blobstore: builder.blobstore,
            incoming_http: builder.incoming_http,
            outgoing_http: builder.outgoing_http,
            keyvalue_atomic: builder.keyvalue_atomic,
            keyvalue_eventual: builder.keyvalue_eventual,
            messaging: builder.messaging,
        }
    }
}

impl<Bs, Ih, Oh, Ka, Ke, Ms> From<Handler<Bs, Ih, Oh, Ka, Ke, Ms>> for HandlerBuilder<Bs, Ih, Oh, Ka, Ke, Ms> {
    /// Thaw a handler back into a builder with the same bindings.
    fn from(handler: Handler<Bs, Ih, Oh, Ka, Ke, Ms>) -> (r: Self) {
        HandlerBuilder {
            blobstore: handler.blobstore,
            incoming_http: handler.incoming_http,
            outgoing_http: handler.outgoing_http,
            keyvalue_atomic: handler.keyvalue_atomic,
            keyvalue_eventual: handler.keyvalue_eventual,
            messaging: handler.messaging,
        }
    }
}

impl<Bs, Ih, Oh, Ka, Ke, Ms> vstd::std_specs::convert::FromSpecImpl<Handler<Bs, Ih, Oh, Ka, Ke, Ms>> for HandlerBuilder<Bs, Ih, Oh, Ka, Ke, Ms> {
    open spec fn obeys_from_spec() -> bool {
        true
    }

    open spec fn from_spec(handler: Handler<Bs, Ih, Oh, Ka, Ke, Ms>) -> Self {
        HandlerBuilder {
            blobstore: handler.blobstore,
            incoming_http: handler.incoming_http,
            outgoing_http: handler.outgoing_http,
            keyvalue_atomic: handler.keyvalue_atomic,
            keyvalue_eventual: handler.keyvalue_eventual,
            messaging: handler.messaging,
        }
    }
}

} // verus!
