//! The work queue: an unbounded multi-producer channel of work items with a
//! single consuming end that all workers share.
//!
//! Everything in this module is a thin trusted boundary around
//! `std::sync::mpsc` and the exclusive-access primitive (`Arc<Mutex<..>>`)
//! that guards the consuming end.  The channel carries opaque callables, so
//! none of its contents can be inspected here; what the contracts state they
//! state through four uninterpreted names — which channel a handle belongs
//! to, which items have been handed through a producer handle, and how many
//! items have been removed through a consuming handle — and the pool's logic
//! above this module is verified against those statements.

use vstd::prelude::*;

verus! {

/// A single-invocation unit of work: an owned callable with no arguments and
/// no return value, transferable across execution contexts.
///
/// The callable is opaque; a `Job` is constructed only by the pool, out of
/// the item a submitter hands to `execute`, and is run exactly once.
#[verifier::external_body]
pub struct Job {
    inner: Box<dyn FnOnce() + Send + 'static>,
}

impl Job {
    /// Relies on `Box::new`: wraps the callable unchanged.  The callable's
    /// own precondition is discharged here, once, before any worker may run
    /// it; `Box<dyn FnOnce()>` itself is beyond what the verifier can hold,
    /// hence the trusted boundary.
    #[verifier::external_body]
    pub(crate) fn new<F>(f: F) -> (job: Job) where
        F: FnOnce() + Send + 'static,

        requires
            f.requires(()),
    {
        Job { inner: Box::new(f) }
    }

    /// Runs the item to completion on the calling execution context.
    ///
    /// Relies on `FnOnce::call_once` through the box.  If the item itself
    /// fails (panics), that failure propagates to the caller and terminates
    /// the calling worker; the pool deliberately does not catch it.
    #[verifier::external_body]
    pub(crate) fn run(self) {
        (self.inner)()
    }
}

/// The producer half of the work queue.  Held by the pool; `send` never
/// blocks, since the channel is unbounded.
#[verifier::external_body]
pub struct JobSender {
    inner: std::sync::mpsc::Sender<Job>,
}

/// The single consuming end of the work queue, wrapped in its exclusive
/// access token (`Mutex`) and shared among all workers (`Arc`).
#[verifier::external_body]
pub struct SharedReceiver {
    inner: std::sync::Arc<std::sync::Mutex<std::sync::mpsc::Receiver<Job>>>,
}

/// The channel a producer handle belongs to.  Two handles with the same
/// identity feed, respectively consume, one and the same queue; the only
/// facts known of it are the ones the trusted operations below state.
pub uninterp spec fn sender_channel(s: JobSender) -> int;

/// The channel a consuming handle belongs to.
pub uninterp spec fn receiver_channel(r: SharedReceiver) -> int;

/// The items handed to the channel through this producer handle so far, in
/// the order they were handed over.  Grows only as `send`'s contract says.
pub uninterp spec fn sent_record(s: JobSender) -> Seq<Job>;

/// How many items have been removed from the channel through this consuming
/// handle so far.  Grows only as `take_next`'s contract says.
pub uninterp spec fn taken_count(r: SharedReceiver) -> nat;

/// Relies on `std::sync::mpsc::channel`: creates a connected pair — the two
/// ends belong to one and the same fresh channel, nothing has been handed
/// through the producer half and nothing removed through the consuming
/// half.  Every item the producer half accepts arrives at the consuming
/// half, each item exactly once, in submission order.  The consuming half
/// is returned already wrapped in its exclusive access token so that
/// workers can share it.
#[verifier::external_body]
pub(crate) fn job_channel() -> (ends: (JobSender, SharedReceiver))
    ensures
        sender_channel(ends.0) == receiver_channel(ends.1),
        sent_record(ends.0) == Seq::<Job>::empty(),
        taken_count(ends.1) == 0,
{
    let (tx, rx) = std::sync::mpsc::channel();
    (
        JobSender { inner: tx },
        SharedReceiver { inner: std::sync::Arc::new(std::sync::Mutex::new(rx)) },
    )
}

impl JobSender {
    /// Relies on `Sender::send`: hands the item to the channel without
    /// blocking (the channel is unbounded) and returns immediately whether
    /// the channel accepted it.  On `true` the item, unchanged, joined the
    /// end of this handle's record; `false` comes exactly when every
    /// consuming handle has been dropped — only possible once every worker
    /// is gone — in which case the channel refuses the item, the record is
    /// unchanged, and the caller decides what the failure means.
    #[verifier::external_body]
    pub(crate) fn send(&mut self, job: Job) -> (ok: bool)
        ensures
            sender_channel(*final(self)) == sender_channel(*old(self)),
            ok ==> sent_record(*final(self)) == sent_record(*old(self)).push(job),
            !ok ==> sent_record(*final(self)) == sent_record(*old(self)),
    {
        self.inner.send(job).is_ok()
    }
}

impl SharedReceiver {
    /// Relies on `Arc::clone`: hands out one more handle to the same
    /// channel — all handles observe one and the same queue — through which
    /// nothing has been removed yet.
    #[verifier::external_body]
    pub(crate) fn clone_handle(&self) -> (other: SharedReceiver)
        ensures
            receiver_channel(other) == receiver_channel(*self),
            taken_count(other) == 0,
    {
        SharedReceiver { inner: std::sync::Arc::clone(&self.inner) }
    }

    /// The worker's critical section, relying on `Mutex::lock` and
    /// `Receiver::recv`: blocks until exclusive access to the consuming end
    /// is granted, blocks until an item is available, removes exactly one —
    /// the oldest one submitted, which no other holder can ever receive —
    /// and releases the access before returning, so the caller always runs
    /// the item outside it.  The calling thread must not already hold the
    /// access (the worker loop never does): `Mutex::lock` may panic or
    /// deadlock on reentry.
    ///
    /// `None` — leaving the count unchanged — comes only on the two
    /// failures fatal to a single worker: the access token was poisoned by
    /// a holder that terminated abnormally, or every producer handle of the
    /// queue has been dropped.
    #[verifier::external_body]
    pub(crate) fn take_next(&mut self) -> (next: Option<Job>)
        ensures
            receiver_channel(*final(self)) == receiver_channel(*old(self)),
            next is Some ==> taken_count(*final(self)) == taken_count(*old(self)) + 1,
            next is None ==> taken_count(*final(self)) == taken_count(*old(self)),
    {
        match self.inner.lock() {
            Ok(guard) => guard.recv().ok(),
            Err(_) => None,
        }
    }
}

} // verus!
