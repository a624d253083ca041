//! The worker pool: a fixed set of long-lived workers that pull work items
//! off the shared work queue and run them to completion.
//!
//! Starting an execution context is an effect the verifier cannot hold, so
//! the pool splits construction in two: [`ThreadPool::new`] builds the work
//! queue and returns, besides the pool, exactly one [`WorkerSeat`] per
//! worker — the worker's identifier plus its handle to the shared consuming
//! end, every seat wired to the pool's own queue — and the caller mounts
//! each seat on a real execution context, which there repeats
//! [`WorkerSeat::run_once`], the verified body of the worker loop, until it
//! reports that the worker is done.
//!
//! The central design point is that a worker holds the queue's exclusive
//! access token only for the moment it removes one item — the critical
//! section inside `take_next` — and the item then runs outside it, in
//! [`WorkerSeat::finish_pass`], so one worker's long-running item never
//! stalls the others' ability to pull the next one.  The abstract
//! counterpart of this loop, and the properties it gives the pool as a
//! whole, are stated and proved in [`crate::model`]: a call of `execute` is
//! the model's `submit`, and extends the sender's record of handed-over
//! items by exactly the submitted item; a pass of `run_once` that returns
//! `true` is the model's `take` followed by `finish` (or, if the item
//! fails, `crash`), and extends the seat's count of removed items by
//! exactly one.

use vstd::prelude::*;

use crate::queue::Job;
use crate::queue::JobSender;
use crate::queue::SharedReceiver;
use crate::queue::job_channel;
use crate::queue::receiver_channel;
use crate::queue::sender_channel;
use crate::queue::sent_record;
use crate::queue::taken_count;

verus! {

/// Everything one worker needs to serve the pool: its identifier and a
/// handle to the single shared consuming end of the work queue.  Created
/// only by [`ThreadPool::new`], one per worker, and served through
/// [`WorkerSeat::run_once`].
pub struct WorkerSeat {
    id: usize,
    receiver: SharedReceiver,
}

impl WorkerSeat {
    /// The identifier this seat was created with.
    pub closed spec fn spec_id(&self) -> usize {
        self.id
    }

    /// The channel this seat consumes from; [`ThreadPool::new`] wires it to
    /// the pool's own queue.
    pub closed spec fn spec_channel(&self) -> int {
        receiver_channel(self.receiver)
    }

    /// How many items this seat's worker has removed from the queue and
    /// run: one for every pass of [`WorkerSeat::run_once`] that returned
    /// `true`, and nothing else, attested by the queue's own contract.
    pub closed spec fn spec_served(&self) -> nat {
        taken_count(self.receiver)
    }

    /// The worker's identifier, `0, 1, ..., size - 1` within its pool.
    pub fn id(&self) -> (id: usize)
        ensures
            id == self.spec_id(),
    {
        self.id
    }

    /// The step of the worker loop after the critical section: if an item
    /// was removed from the queue, run it to completion and keep serving;
    /// if none could be, the worker is done.
    ///
    /// An item that itself fails while running terminates the calling
    /// execution context directly — the failure is not caught, so it stays
    /// with the worker that ran the item and with no one else.
    pub fn finish_pass(next: Option<Job>) -> (more: bool)
        ensures
            more == (next is Some),
    {
        match next {
            Some(job) => {
                job.run();
                true
            },
            None => false,
        }
    }

    /// One pass of the worker loop, which a worker repeats for the lifetime
    /// of the pool: (1) acquire exclusive access to the shared consuming
    /// end, (2) remove exactly one item, (3) release the access, (4) run
    /// the item to completion.  Returns whether the worker can keep
    /// serving, so the execution context that holds the seat repeats this
    /// pass until it returns `false`; a pass returns `true` exactly when it
    /// removed one item from the seat's channel — `spec_served` grows by
    /// one, attested by the queue — and ran it.
    ///
    /// Steps 1–3 are the critical section inside `take_next`, already over
    /// when [`WorkerSeat::finish_pass`] runs the item: running an item
    /// blocks this worker but never the queue.  If items were run while the
    /// access token was held, the pool would collapse to serial execution.
    ///
    /// No item is obtained — and so `false` comes — only on the two
    /// failures that are fatal to a single worker: the access token was
    /// poisoned by a holder that terminated abnormally, or the producer
    /// side of the queue is gone.  Either way this worker stops and no
    /// other worker is affected.  An item that itself fails while running
    /// terminates this worker's execution context directly; no other worker
    /// is affected, and the item is not retried.
    pub fn run_once(&mut self) -> (more: bool)
        ensures
            final(self).spec_id() == old(self).spec_id(),
            final(self).spec_channel() == old(self).spec_channel(),
            more ==> final(self).spec_served() == old(self).spec_served() + 1,
            !more ==> final(self).spec_served() == old(self).spec_served(),
    {
        let next: Option<Job> = self.receiver.take_next();
        Self::finish_pass(next)
    }
}

/// One worker as the pool keeps it: a fixed identifier.  The worker's
/// execution context itself is owned by whatever the seat was mounted on;
/// the pool never joins or stops it.
struct Worker {
    id: usize,
}

/// A fixed-size pool of workers together with the producer half of the work
/// queue.  Created once with a fixed size; never resized, never shut down.
pub struct ThreadPool {
    workers: Vec<Worker>,
    sender: JobSender,
}

impl ThreadPool {
    /// The number of workers the pool was created with.
    pub closed spec fn spec_size(&self) -> nat {
        self.workers@.len()
    }

    /// The channel whose producer half this pool holds; every seat it
    /// handed out consumes from the same channel.
    pub closed spec fn spec_channel(&self) -> int {
        sender_channel(self.sender)
    }

    /// The items submitted through this pool so far, in submission order,
    /// as recorded on the queue's producer half: one for every accepted
    /// call of [`ThreadPool::execute`], and nothing else, attested by the
    /// queue's own contract.
    pub closed spec fn spec_record(&self) -> Seq<Job> {
        sent_record(self.sender)
    }

    /// How many items have been submitted through this pool.
    pub closed spec fn spec_submitted(&self) -> nat {
        self.spec_record().len()
    }

    /// A well-formed pool has at least one worker, and its workers carry
    /// the identifiers `0, 1, ..., size - 1` in order.
    pub closed spec fn wf(&self) -> bool {
        &&& self.workers@.len() > 0
        &&& forall|i: int|
            0 <= i < self.workers@.len() ==> (#[trigger] self.workers@[i]).id == i
    }

    /// Create a new ThreadPool.
    ///
    /// The size is the number of workers in the pool; a size of zero is a
    /// caller bug, excluded here, since such a pool could never make
    /// progress.  Construction builds one common work queue and returns the
    /// pool — no item submitted yet — together with exactly `size` worker
    /// seats, identifiers `0` up to `size - 1` in order, every seat sharing
    /// the single consuming end of the pool's own queue and none having
    /// served yet.  The caller mounts each seat on its own execution
    /// context, which there repeats [`WorkerSeat::run_once`]; the pool is
    /// in service once all are mounted.
    pub fn new(size: usize) -> (r: (ThreadPool, Vec<WorkerSeat>))
        requires
            size > 0,
        ensures
            r.0.wf(),
            r.0.spec_size() == size,
            r.0.spec_submitted() == 0,
            r.1@.len() == size,
            forall|i: int| 0 <= i < size ==> (#[trigger] r.1@[i]).spec_id() == i,
            forall|i: int| 0 <= i < size ==> (#[trigger] r.1@[i]).spec_served() == 0,
            forall|i: int|
                0 <= i < size ==> (#[trigger] r.1@[i]).spec_channel() == r.0.spec_channel(),
    {
        let (sender, receiver) = job_channel();

        let mut workers: Vec<Worker> = Vec::with_capacity(size);
        let mut seats: Vec<WorkerSeat> = Vec::with_capacity(size);

        let mut id: usize = 0;
        while id < size
            invariant
                id <= size,
                workers@.len() == id,
                seats@.len() == id,
                receiver_channel(receiver) == sender_channel(sender),
                sent_record(sender) == Seq::<Job>::empty(),
                forall|i: int| 0 <= i < id ==> (#[trigger] workers@[i]).id == i,
                forall|i: int| 0 <= i < id ==> (#[trigger] seats@[i]).spec_id() == i,
                forall|i: int| 0 <= i < id ==> (#[trigger] seats@[i]).spec_served() == 0,
                forall|i: int|
                    0 <= i < id ==> (#[trigger] seats@[i]).spec_channel() == sender_channel(
                        sender,
                    ),
            decreases size - id,
        {
            seats.push(WorkerSeat { id, receiver: receiver.clone_handle() });
            workers.push(Worker { id });
            id = id + 1;
        }

        (ThreadPool { workers, sender }, seats)
    }

    /// The number of workers, as fixed at construction.
    pub fn size(&self) -> (n: usize)
        ensures
            n == self.spec_size(),
    {
        self.workers.len()
    }

    /// Enqueue one work item for asynchronous execution: fire-and-forget
    /// dispatch, the model's `submit` step.  The item is boxed unchanged
    /// and pushed onto the unbounded work queue — it joins the end of the
    /// pool's submission record, every earlier item untouched — and the
    /// call returns immediately, never blocking on capacity, with no
    /// indication of when or by which worker the item will run and no
    /// result channel back to the caller; exactly one worker will
    /// eventually remove and run it, items leaving the queue in the order
    /// they were submitted.  The workers are untouched.
    ///
    /// The result is `false` — leaving the record unchanged — exactly when
    /// the queue refused the item because every consuming handle is gone,
    /// which cannot happen while any worker holds its seat; the caller
    /// decides what that failure means, as the surrounding program did.
    pub fn execute<F>(&mut self, f: F) -> (ok: bool) where
        F: FnOnce() + Send + 'static,

        requires
            f.requires(()),
        ensures
            final(self).spec_size() == old(self).spec_size(),
            final(self).wf() == old(self).wf(),
            final(self).spec_channel() == old(self).spec_channel(),
            ok ==> exists|j: Job|
                final(self).spec_record() == old(self).spec_record().push(j),
            ok ==> final(self).spec_submitted() == old(self).spec_submitted() + 1,
            !ok ==> final(self).spec_record() == old(self).spec_record(),
    {
        let job = Job::new(f);
        let ghost boxed = job;
        let ok = self.sender.send(job);
        proof {
            if ok {
                assert(self.spec_record() == old(self).spec_record().push(boxed));
            }
        }
        ok
    }
}

} // verus!
