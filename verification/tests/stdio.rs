//! Behaviour of the stream multiplexer: replace and take transitions, and
//! the per-operation directives that keep I/O from blocking on the
//! protecting lock.

use wasi_cloud_core::stdio::{read_directive, write_directive};
use wasi_cloud_core::{LockOutcome, ReadDirective, StdioStream, WriteDirective};

#[test]
fn replace_then_replace_returns_the_first_stream() {
    let mut slot: StdioStream<&'static str> = StdioStream::unset();
    assert!(slot.replace("A").is_none());
    assert_eq!(slot.replace("B").unwrap(), "A");
    assert_eq!(slot.take().unwrap(), "B");
}

#[test]
fn take_after_replace_returns_the_stream_and_leaves_unset() {
    let mut slot: StdioStream<&'static str> = StdioStream::unset();
    slot.replace("A");
    assert_eq!(slot.take().unwrap(), "A");
    assert!(!slot.is_bound());
    assert!(slot.take().is_none());
}

#[test]
fn read_on_unset_is_immediate_end_of_stream() {
    // With the lock acquired and nothing bound, a read reports end-of-stream
    // at once; it never waits for a stream to appear.
    assert!(matches!(read_directive(false, LockOutcome::Acquired), ReadDirective::EndOfStream));
}

#[test]
fn io_never_blocks_on_lock_contention() {
    // A contended lock yields zero bytes for reads and a distinguished
    // transient failure for writes, whatever the slot holds.
    assert!(matches!(read_directive(true, LockOutcome::Contended), ReadDirective::YieldEmpty));
    assert!(matches!(read_directive(false, LockOutcome::Contended), ReadDirective::YieldEmpty));
    assert!(matches!(
        write_directive(true, LockOutcome::Contended),
        WriteDirective::TransientError
    ));
    assert!(matches!(
        write_directive(false, LockOutcome::Contended),
        WriteDirective::TransientError
    ));
}

#[test]
fn a_fresh_host_context_has_nothing_bound() {
    let mut host: wasi_cloud_core::Host<(), (), (), (), (), (), &'static str, &'static str> =
        wasi_cloud_core::Host::new();
    // Every capability is unconfigured and every standard stream is unset.
    assert!(host.handler.blobstore.is_none());
    assert!(host.handler.messaging.is_none());
    assert!(!host.stdin.is_bound());
    assert!(!host.stdout.is_bound());
    assert!(!host.stderr.is_bound());
    // The embedder may hot-swap the streams at runtime.
    assert!(host.stdout.replace("sink").is_none());
    assert!(host.stdout.is_bound());
    assert_eq!(host.stdout.take().unwrap(), "sink");
}

#[test]
fn bound_streams_delegate_and_unset_writes_fail_closed() {
    assert!(matches!(read_directive(true, LockOutcome::Acquired), ReadDirective::Delegate));
    assert!(matches!(write_directive(true, LockOutcome::Acquired), WriteDirective::Delegate));
    assert!(matches!(
        write_directive(false, LockOutcome::Acquired),
        WriteDirective::ClosedError
    ));
}
