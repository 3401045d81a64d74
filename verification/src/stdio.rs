//! Swappable standard-stream multiplexer.
//!
//! A [`StdioStream`] presents one logical stream whose backing implementation
//! the embedder may replace at runtime. Its state is either `Unset` or bound
//! to a stream; when unset it behaves as a permanently closed stream. The
//! embedder shares the slot behind a lock that is only ever try-acquired on
//! the I/O path; the per-operation outcome for every combination of lock
//! outcome and slot state is fixed by the directive functions here, so an I/O
//! operation never blocks waiting for a concurrent swap.

use vstd::prelude::*;

verus! {

/// A swappable slot holding the stream that currently backs a logical
/// standard stream, or nothing, in which case the stream behaves as closed.
pub struct StdioStream<T> {
    /// The stream currently bound, if any.
    pub inner: Option<T>,
}

/// Outcome of try-acquiring the lock that protects a [`StdioStream`].
pub enum LockOutcome {
    /// The lock was acquired without waiting.
    Acquired,
    /// The lock is held by a concurrent reconfiguration.
    Contended,
}

/// What a read (or skip) performs, fixed by slot state and lock outcome.
pub enum ReadDirective {
    /// Delegate to the bound stream.
    Delegate,
    /// Report immediate end-of-stream: the slot is unset.
    EndOfStream,
    /// Yield zero bytes without blocking: the lock is contended.
    YieldEmpty,
}

/// What a write, flush or write-readiness check performs, fixed by slot state
/// and lock outcome.
pub enum WriteDirective {
    /// Delegate to the bound stream.
    Delegate,
    /// Fail with a closed-stream error: the slot is unset.
    ClosedError,
    /// Fail with a transient-unavailable error: the lock is contended.
    TransientError,
}

/// The one-step effect of binding a stream: the slot becomes bound to it
/// and the immediately-previous binding (or none) is handed back.
pub open spec fn replace_transition<T>(pre: StdioStream<T>, stream: T) -> (StdioStream<T>, Option<
    T,
>) {
    (StdioStream { inner: Some(stream) }, pre.inner)
}

/// The one-step effect of taking the bound stream: the slot becomes unset
/// and the binding (or none) is handed back.
pub open spec fn take_transition<T>(pre: StdioStream<T>) -> (StdioStream<T>, Option<T>) {
    (StdioStream { inner: None }, pre.inner)
}

/// Law: binding `a` and then binding `b` returns `a` on the second call,
/// whatever the starting state.
pub proof fn lemma_replace_then_replace<T>(s0: StdioStream<T>, a: T, b: T)
    ensures
        ({
            let (s1, _) = replace_transition(s0, a);
            let (s2, prev) = replace_transition(s1, b);
            prev == Some(a) && s2.inner == Some(b)
        }),
{
}

/// Law: a take after binding `a` returns `a` and leaves the multiplexer
/// unset.
pub proof fn lemma_take_after_replace<T>(s0: StdioStream<T>, a: T)
    ensures
        ({
            let (s1, _) = replace_transition(s0, a);
            let (s2, taken) = take_transition(s1);
            taken == Some(a) && s2.inner is None
        }),
{
}

impl<T> StdioStream<T> {
    /// An unset slot: the logical stream behaves as closed.
    pub fn unset() -> (r: StdioStream<T>)
        ensures
            r.inner is None,
    {
        StdioStream { inner: None }
    }

    /// Bind `stream`, returning the immediately-previous binding if any.
    pub fn replace(&mut self, stream: T) -> (prev: Option<T>)
        ensures
            (*final(self), prev) == replace_transition(*old(self), stream),
    {
        let prev = self.inner.take();
        self.inner = Some(stream);
        prev
    }

    /// Remove and return the bound stream, leaving the slot unset.
    pub fn take(&mut self) -> (prev: Option<T>)
        ensures
            (*final(self), prev) == take_transition(*old(self)),
    {
        self.inner.take()
    }

    /// Whether a stream is currently bound.
    pub fn is_bound(&self) -> (r: bool)
        ensures
            r == (self.inner is Some),
    {
        self.inner.is_some()
    }
}

/// Decide what a read or skip does. I/O never blocks on the protecting lock:
/// when the slot is unset the read reports immediate end-of-stream, and when
/// the lock is contended it yields zero bytes; only with the lock acquired
/// and a stream bound does it delegate.
pub fn read_directive(bound: bool, lock: LockOutcome) -> (r: ReadDirective)
    ensures
        lock is Contended ==> r is YieldEmpty,
        lock is Acquired && !bound ==> r is EndOfStream,
        lock is Acquired && bound ==> r is Delegate,
{
    match lock {
        LockOutcome::Contended => ReadDirective::YieldEmpty,
        LockOutcome::Acquired => if bound {
            ReadDirective::Delegate
        } else {
            ReadDirective::EndOfStream
        },
    }
}

/// Decide what a write, a write of zeroes, a flush or a write-readiness
/// check does. When the slot is unset the operation fails with a
/// closed-stream error, and when the lock is contended it fails with a
/// distinguished transient error rather than blocking; only with the lock
/// acquired and a stream bound does it delegate.
pub fn write_directive(bound: bool, lock: LockOutcome) -> (r: WriteDirective)
    ensures
        lock is Contended ==> r is TransientError,
        lock is Acquired && !bound ==> r is ClosedError,
        lock is Acquired && bound ==> r is Delegate,
{
    match lock {
        LockOutcome::Contended => WriteDirective::TransientError,
        LockOutcome::Acquired => if bound {
            WriteDirective::Delegate
        } else {
            WriteDirective::ClosedError
        },
    }
}

} // verus!
