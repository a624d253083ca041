//! An abstract model of the pool: the per-worker state machine and the
//! work-queue discipline, with proofs of the properties the design promises.
//!
//! The executable pool hands its items to real execution contexts through an
//! opaque channel, so its observable behaviour is stated here, one transition
//! per operation: [`submit`] is what [`crate::ThreadPool::execute`] does to
//! the queue, [`take`] is the critical section of
//! [`crate::pool::WorkerSeat::run_once`], [`finish`] is an item running to
//! completion, and [`crash`] is an item failing and taking its worker down.
//! The lemmas at the end are the design's contract: items are delivered
//! exactly once and in submission order, submission is never blocked, a
//! single-worker pool is serial, a failing item is fatal to its own worker
//! alone, and every submitted item is accounted for — completed, or lost
//! with the worker that ran it.

use vstd::multiset::Multiset;
use vstd::prelude::*;

verus! {

broadcast use
    vstd::multiset::group_multiset_axioms,
    vstd::seq_lib::group_to_multiset_ensures;

/// Identifies one submitted work item of the model.
pub type JobId = nat;

/// The state machine of one worker: `Idle -> Running -> Idle`, looping
/// for the pool's whole lifetime.  `Dead` is reached only when the item a
/// worker was running failed; there is no transition out of it, since the
/// pool never restarts a lost worker.
pub enum WorkerState {
    /// Waiting to remove the next item from the queue.
    Idle,
    /// Running the item with the given identifier, uninterruptible.
    Running(JobId),
    /// Terminated abnormally; the pool's capacity is down by one for good.
    Dead,
}

/// The whole pool, abstractly: the items seen so far and the workers.
///
/// `submitted` records every item ever submitted, in submission order;
/// `pending` the submitted items not yet removed by any worker, oldest
/// first; `delivered` the items removed by some worker, in removal order;
/// `completed` the items that ran to completion, in completion order;
/// `lost` the items whose failure killed the worker running them.
pub struct PoolModel {
    pub submitted: Seq<JobId>,
    pub pending: Seq<JobId>,
    pub delivered: Seq<JobId>,
    pub completed: Seq<JobId>,
    pub lost: Seq<JobId>,
    pub workers: Seq<WorkerState>,
}

/// What one worker contributes to the collection of items being run right
/// now: its item if it is running one, nothing otherwise.
pub open spec fn running_contrib(st: WorkerState) -> Multiset<JobId> {
    match st {
        WorkerState::Running(id) => Multiset::singleton(id),
        _ => Multiset::empty(),
    }
}

/// The items being run right now, over all workers.
pub open spec fn running_ids(ws: Seq<WorkerState>) -> Multiset<JobId>
    decreases ws.len(),
{
    if ws.len() == 0 {
        Multiset::empty()
    } else {
        running_ids(ws.drop_last()).add(running_contrib(ws.last()))
    }
}

/// The pool's invariant.  There is at least one worker; every submitted
/// item is in exactly one queue-side place — delivered to exactly one
/// worker, or still pending — with both records keeping submission order;
/// and every delivered item is in exactly one worker-side place: it ran to
/// completion, it died with its worker, or some worker is running it now.
pub open spec fn wf(s: PoolModel) -> bool {
    &&& s.workers.len() > 0
    &&& s.submitted == s.delivered + s.pending
    &&& s.delivered.to_multiset() == s.completed.to_multiset().add(s.lost.to_multiset()).add(
        running_ids(s.workers),
    )
}

/// How many workers have not terminated abnormally: the pool's effective
/// capacity.
pub open spec fn live_workers(ws: Seq<WorkerState>) -> nat
    decreases ws.len(),
{
    if ws.len() == 0 {
        0
    } else {
        live_workers(ws.drop_last()) + if ws.last() is Dead {
            0nat
        } else {
            1nat
        }
    }
}

/// Construction: `size` workers, all idle, and an empty queue.  A size of
/// zero is a caller bug and excluded, as it is for the executable pool.
pub open spec fn init(size: nat) -> PoolModel {
    PoolModel {
        submitted: Seq::empty(),
        pending: Seq::empty(),
        delivered: Seq::empty(),
        completed: Seq::empty(),
        lost: Seq::empty(),
        workers: Seq::new(size, |i: int| WorkerState::Idle),
    }
}

/// Submission, the effect of `execute`: the item joins the end of the
/// queue.  There is no enabling condition — submission is possible in every
/// state, whatever the workers are doing, and touches nothing but the
/// queue: this is the model's form of never-blocking, fire-and-forget
/// dispatch.
pub open spec fn submit(s: PoolModel, id: JobId) -> PoolModel {
    PoolModel { submitted: s.submitted.push(id), pending: s.pending.push(id), ..s }
}

/// When worker `w` may remove an item: it is idle — a worker cannot be
/// interrupted while running — and an item is waiting.
pub open spec fn take_enabled(s: PoolModel, w: int) -> bool {
    &&& 0 <= w < s.workers.len()
    &&& s.workers[w] is Idle
    &&& s.pending.len() > 0
}

/// Worker `w` removes one item inside the queue's critical section: always
/// the oldest pending item, which from this moment is delivered to `w` and
/// to no one else.
pub open spec fn take(s: PoolModel, w: int) -> PoolModel {
    PoolModel {
        pending: s.pending.drop_first(),
        delivered: s.delivered.push(s.pending.first()),
        workers: s.workers.update(w, WorkerState::Running(s.pending.first())),
        ..s
    }
}

/// When worker `w` can stop running: it is running an item.
pub open spec fn running_enabled(s: PoolModel, w: int) -> bool {
    &&& 0 <= w < s.workers.len()
    &&& s.workers[w] is Running
}

/// The item worker `w` was running ran to completion; the worker is idle
/// again and the queue is untouched.
pub open spec fn finish(s: PoolModel, w: int) -> PoolModel {
    match s.workers[w] {
        WorkerState::Running(id) => PoolModel {
            workers: s.workers.update(w, WorkerState::Idle),
            completed: s.completed.push(id),
            ..s
        },
        _ => s,
    }
}

/// The item worker `w` was running failed; the failure is not caught, so
/// the item is lost and its worker terminates for good, never replaced.
pub open spec fn crash(s: PoolModel, w: int) -> PoolModel {
    match s.workers[w] {
        WorkerState::Running(id) => PoolModel {
            workers: s.workers.update(w, WorkerState::Dead),
            lost: s.lost.push(id),
            ..s
        },
        _ => s,
    }
}

/// Replacing one worker's state changes the live count by exactly the
/// liveness it gains or loses, and nothing else.
proof fn lemma_live_workers_update(ws: Seq<WorkerState>, w: int, x: WorkerState)
    requires
        0 <= w < ws.len(),
    ensures
        live_workers(ws.update(w, x)) + (if ws[w] is Dead {
            0nat
        } else {
            1nat
        }) == live_workers(ws) + (if x is Dead {
            0nat
        } else {
            1nat
        }),
    decreases ws.len(),
{
    if w == ws.len() - 1 {
        assert(ws.update(w, x).drop_last() =~= ws.drop_last());
        assert(ws.update(w, x).last() == x);
    } else {
        assert(ws.update(w, x).drop_last() =~= ws.drop_last().update(w, x));
        assert(ws.update(w, x).last() == ws.last());
        lemma_live_workers_update(ws.drop_last(), w, x);
    }
}

/// Replacing one worker's state swaps its contribution to the items being
/// run for the new one's, and changes nothing else.
proof fn lemma_running_ids_update(ws: Seq<WorkerState>, w: int, x: WorkerState)
    requires
        0 <= w < ws.len(),
    ensures
        forall|v: JobId|
            #[trigger] running_ids(ws.update(w, x)).count(v) + running_contrib(ws[w]).count(v)
                == running_ids(ws).count(v) + running_contrib(x).count(v),
    decreases ws.len(),
{
    let up = ws.update(w, x);
    if w == ws.len() - 1 {
        assert(up.drop_last() =~= ws.drop_last());
        assert(up.last() == x);
        assert(ws.last() == ws[w]);
        assert forall|v: JobId|
            #[trigger] running_ids(up).count(v) + running_contrib(ws[w]).count(v)
                == running_ids(ws).count(v) + running_contrib(x).count(v) by {
            assert(running_ids(up).count(v) == running_ids(ws.drop_last()).count(v)
                + running_contrib(x).count(v));
            assert(running_ids(ws).count(v) == running_ids(ws.drop_last()).count(v)
                + running_contrib(ws[w]).count(v));
        }
    } else {
        assert(up.drop_last() =~= ws.drop_last().update(w, x));
        assert(up.last() == ws.last());
        assert(ws.drop_last()[w] == ws[w]);
        lemma_running_ids_update(ws.drop_last(), w, x);
        assert forall|v: JobId|
            #[trigger] running_ids(up).count(v) + running_contrib(ws[w]).count(v)
                == running_ids(ws).count(v) + running_contrib(x).count(v) by {
            assert(running_ids(up).count(v) == running_ids(ws.drop_last().update(w, x)).count(v)
                + running_contrib(ws.last()).count(v));
            assert(running_ids(ws.drop_last().update(w, x)).count(v) + running_contrib(
                ws[w],
            ).count(v) == running_ids(ws.drop_last()).count(v) + running_contrib(x).count(v));
            assert(running_ids(ws).count(v) == running_ids(ws.drop_last()).count(v)
                + running_contrib(ws.last()).count(v));
        }
    }
}

/// A set of workers none of which is running contributes no running items.
proof fn lemma_running_ids_none_running(ws: Seq<WorkerState>)
    requires
        forall|i: int| 0 <= i < ws.len() ==> !((#[trigger] ws[i]) is Running),
    ensures
        running_ids(ws) == Multiset::<JobId>::empty(),
    decreases ws.len(),
{
    if ws.len() > 0 {
        lemma_running_ids_none_running(ws.drop_last());
        assert(running_ids(ws) =~= Multiset::<JobId>::empty());
    }
}

/// A set of workers none of which has died counts fully live.
proof fn lemma_live_workers_all_live(ws: Seq<WorkerState>)
    requires
        forall|i: int| 0 <= i < ws.len() ==> !((#[trigger] ws[i]) is Dead),
    ensures
        live_workers(ws) == ws.len(),
    decreases ws.len(),
{
    if ws.len() > 0 {
        lemma_live_workers_all_live(ws.drop_last());
    }
}

/// Construction yields exactly `size` workers, every one of them idle and
/// live — `size` independently progressing execution contexts — over an
/// empty queue.
pub proof fn lemma_init(size: nat)
    requires
        size > 0,
    ensures
        wf(init(size)),
        init(size).workers.len() == size,
        live_workers(init(size).workers) == size,
        forall|i: int| 0 <= i < size ==> (#[trigger] init(size).workers[i]) is Idle,
        init(size).submitted.len() == 0,
{
    let s = init(size);
    assert(s.delivered + s.pending =~= s.submitted);
    lemma_live_workers_all_live(s.workers);
    lemma_running_ids_none_running(s.workers);
    assert(s.delivered.to_multiset() =~= s.completed.to_multiset().add(
        s.lost.to_multiset(),
    ).add(running_ids(s.workers)));
}

/// Submission never blocks and is lost on no one: it is enabled in every
/// state — `submit` has no enabling condition — it appends the item, its
/// whole effect, at the end of the queue, and it leaves every worker as it
/// was, however saturated the pool is.
pub proof fn lemma_submit(s: PoolModel, id: JobId)
    requires
        wf(s),
    ensures
        wf(submit(s, id)),
        submit(s, id).pending == s.pending.push(id),
        submit(s, id).submitted == s.submitted.push(id),
        submit(s, id).delivered == s.delivered,
        submit(s, id).completed == s.completed,
        submit(s, id).lost == s.lost,
        submit(s, id).workers == s.workers,
{
    assert(s.delivered + s.pending.push(id) =~= (s.delivered + s.pending).push(id));
}

/// Removing an item delivers the oldest pending item to exactly one worker:
/// the chosen worker starts running it, every other worker is untouched,
/// and the item leaves the queue the moment it is delivered, so no second
/// worker can ever receive it.
pub proof fn lemma_take(s: PoolModel, w: int)
    requires
        wf(s),
        take_enabled(s, w),
    ensures
        wf(take(s, w)),
        take(s, w).delivered == s.delivered.push(s.pending.first()),
        take(s, w).pending == s.pending.drop_first(),
        take(s, w).workers[w] == WorkerState::Running(s.pending.first()),
        forall|v: int|
            0 <= v < s.workers.len() && v != w ==> take(s, w).workers[v] == s.workers[v],
        take(s, w).submitted == s.submitted,
        live_workers(take(s, w).workers) == live_workers(s.workers),
{
    let t = take(s, w);
    assert(s.delivered.push(s.pending.first()) + s.pending.drop_first() =~= s.delivered
        + s.pending);
    lemma_live_workers_update(s.workers, w, WorkerState::Running(s.pending.first()));
    lemma_running_ids_update(s.workers, w, WorkerState::Running(s.pending.first()));
    vstd::seq_lib::to_multiset_build(s.delivered, s.pending.first());
    assert(running_contrib(s.workers[w]) =~= Multiset::<JobId>::empty());
    assert(t.delivered.to_multiset() =~= t.completed.to_multiset().add(
        t.lost.to_multiset(),
    ).add(running_ids(t.workers)));
}

/// An item running to completion frees its worker and nothing else: the
/// item joins the completed record, the queue is untouched, the other
/// workers are untouched, and the pool's capacity is unchanged.
pub proof fn lemma_finish(s: PoolModel, w: int)
    requires
        wf(s),
        running_enabled(s, w),
    ensures
        wf(finish(s, w)),
        finish(s, w).workers[w] is Idle,
        forall|v: int|
            0 <= v < s.workers.len() && v != w ==> finish(s, w).workers[v] == s.workers[v],
        finish(s, w).submitted == s.submitted,
        finish(s, w).pending == s.pending,
        finish(s, w).delivered == s.delivered,
        finish(s, w).lost == s.lost,
        match s.workers[w] {
            WorkerState::Running(id) => finish(s, w).completed == s.completed.push(id),
            _ => true,
        },
        live_workers(finish(s, w).workers) == live_workers(s.workers),
{
    let t = finish(s, w);
    lemma_live_workers_update(s.workers, w, WorkerState::Idle);
    lemma_running_ids_update(s.workers, w, WorkerState::Idle);
    match s.workers[w] {
        WorkerState::Running(id) => {
            vstd::seq_lib::to_multiset_build(s.completed, id);
            assert(running_contrib(s.workers[w]) =~= Multiset::singleton(id));
        },
        _ => {},
    }
    assert(t.delivered.to_multiset() =~= t.completed.to_multiset().add(
        t.lost.to_multiset(),
    ).add(running_ids(t.workers)));
}

/// Isolation of failure: an item that fails terminates its own worker and
/// nothing else.  The item joins the lost record, the queue and the other
/// workers are untouched, so a surviving worker that could remove an item
/// still can, and the pool's effective capacity shrinks by exactly one —
/// silently, since no one is told and the worker is never replaced.
pub proof fn lemma_crash(s: PoolModel, w: int)
    requires
        wf(s),
        running_enabled(s, w),
    ensures
        wf(crash(s, w)),
        crash(s, w).workers[w] is Dead,
        forall|v: int|
            0 <= v < s.workers.len() && v != w ==> crash(s, w).workers[v] == s.workers[v],
        crash(s, w).submitted == s.submitted,
        crash(s, w).pending == s.pending,
        crash(s, w).delivered == s.delivered,
        crash(s, w).completed == s.completed,
        match s.workers[w] {
            WorkerState::Running(id) => crash(s, w).lost == s.lost.push(id),
            _ => true,
        },
        live_workers(crash(s, w).workers) + 1 == live_workers(s.workers),
        forall|v: int| v != w && take_enabled(s, v) ==> take_enabled(crash(s, w), v),
{
    let t = crash(s, w);
    lemma_live_workers_update(s.workers, w, WorkerState::Dead);
    lemma_running_ids_update(s.workers, w, WorkerState::Dead);
    match s.workers[w] {
        WorkerState::Running(id) => {
            vstd::seq_lib::to_multiset_build(s.lost, id);
            assert(running_contrib(s.workers[w]) =~= Multiset::singleton(id));
        },
        _ => {},
    }
    assert(t.delivered.to_multiset() =~= t.completed.to_multiset().add(
        t.lost.to_multiset(),
    ).add(running_ids(t.workers)));
}

/// Delivery keeps submission order across the whole pool: at every
/// well-formed state, the items delivered so far are exactly the first
/// `delivered.len()` items submitted, in order.
pub proof fn lemma_delivered_in_order(s: PoolModel)
    requires
        wf(s),
    ensures
        s.delivered.len() <= s.submitted.len(),
        s.delivered == s.submitted.take(s.delivered.len() as int),
        forall|i: int| 0 <= i < s.delivered.len() ==> s.delivered[i] == s.submitted[i],
{
    assert(s.delivered =~= s.submitted.take(s.delivered.len() as int));
}

/// Every item runs exactly once: once the queue has drained, the items
/// delivered to workers are exactly the items submitted — none lost, none
/// duplicated — and in submission order.
pub proof fn lemma_drained_delivers_all(s: PoolModel)
    requires
        wf(s),
        s.pending.len() == 0,
    ensures
        s.delivered == s.submitted,
{
    assert(s.delivered + s.pending =~= s.delivered);
}

/// Every item is accounted for: when a pool has gone quiet — the queue
/// drained and no worker still running — every submitted item either ran to
/// completion or died with its worker, so the completed count is exactly
/// the submitted count minus the failed items.
pub proof fn lemma_quiescent_accounting(s: PoolModel)
    requires
        wf(s),
        s.pending.len() == 0,
        forall|w: int| 0 <= w < s.workers.len() ==> !((#[trigger] s.workers[w]) is Running),
    ensures
        s.submitted.to_multiset() == s.completed.to_multiset().add(s.lost.to_multiset()),
        s.completed.len() + s.lost.len() == s.submitted.len(),
{
    lemma_drained_delivers_all(s);
    lemma_running_ids_none_running(s.workers);
    assert(s.submitted.to_multiset() =~= s.completed.to_multiset().add(s.lost.to_multiset()));
    assert(s.submitted.to_multiset().len() == s.submitted.len());
    assert(s.completed.to_multiset().len() == s.completed.len());
    assert(s.lost.to_multiset().len() == s.lost.len());
}

/// A saturated pool delivers nothing further: while every worker is
/// running an item, no item can be removed from the queue, however many
/// items are waiting — they queue up, and the next one is delivered only
/// once some worker has finished.  In particular a pool with one worker is
/// serial: its single running item blocks all delivery.
pub proof fn lemma_saturated_pool(s: PoolModel)
    requires
        forall|w: int| 0 <= w < s.workers.len() ==> (#[trigger] s.workers[w]) is Running,
    ensures
        forall|w: int| !take_enabled(s, w),
{
}

/// Single-worker fairness: with one idle worker and items `a` then `b`
/// waiting, the worker removes `a` first; while `a` runs nothing further
/// can start; and only once `a` has run to completion is `b` removed.
pub proof fn lemma_single_worker_runs_in_order(s: PoolModel, a: JobId, b: JobId)
    requires
        wf(s),
        s.workers.len() == 1,
        s.workers[0] is Idle,
        s.pending == seq![a, b],
    ensures
        take(s, 0).workers[0] == WorkerState::Running(a),
        forall|w: int| !take_enabled(take(s, 0), w),
        take_enabled(finish(take(s, 0), 0), 0),
        take(finish(take(s, 0), 0), 0).workers[0] == WorkerState::Running(b),
{
    lemma_take(s, 0);
    let s1 = take(s, 0);
    assert(s1.pending == seq![a, b].drop_first());
    assert(seq![a, b].drop_first() =~= seq![b]);
    lemma_finish(s1, 0);
    let s2 = finish(s1, 0);
    assert(s2.pending == seq![b]);
    lemma_take(s2, 0);
}

/// One step the pool can make: a submission, a worker removing an item, an
/// item running to completion, or an item failing.
pub enum Step {
    Submit(JobId),
    Take(int),
    Finish(int),
    Crash(int),
}

/// Whether a step can fire in the given state.  A submission always can.
pub open spec fn step_enabled(s: PoolModel, step: Step) -> bool {
    match step {
        Step::Submit(_) => true,
        Step::Take(w) => take_enabled(s, w),
        Step::Finish(w) => running_enabled(s, w),
        Step::Crash(w) => running_enabled(s, w),
    }
}

/// The state after the given step.
pub open spec fn apply_step(s: PoolModel, step: Step) -> PoolModel {
    match step {
        Step::Submit(id) => submit(s, id),
        Step::Take(w) => take(s, w),
        Step::Finish(w) => finish(s, w),
        Step::Crash(w) => crash(s, w),
    }
}

/// Whether a whole run of steps can fire from the given state, each step
/// enabled in the state the previous ones produced.
pub open spec fn trace_enabled(s: PoolModel, trace: Seq<Step>) -> bool
    decreases trace.len(),
{
    trace.len() == 0 || (step_enabled(s, trace.first()) && trace_enabled(
        apply_step(s, trace.first()),
        trace.drop_first(),
    ))
}

/// The state a run of steps ends in.
pub open spec fn run_trace(s: PoolModel, trace: Seq<Step>) -> PoolModel
    decreases trace.len(),
{
    if trace.len() == 0 {
        s
    } else {
        run_trace(apply_step(s, trace.first()), trace.drop_first())
    }
}

/// The pool's invariant is inductive: every state a well-formed pool can
/// reach, by any run of steps, is well formed again.
pub proof fn lemma_run_preserves_wf(s: PoolModel, trace: Seq<Step>)
    requires
        wf(s),
        trace_enabled(s, trace),
    ensures
        wf(run_trace(s, trace)),
    decreases trace.len(),
{
    if trace.len() > 0 {
        match trace.first() {
            Step::Submit(id) => lemma_submit(s, id),
            Step::Take(w) => lemma_take(s, w),
            Step::Finish(w) => lemma_finish(s, w),
            Step::Crash(w) => lemma_crash(s, w),
        }
        lemma_run_preserves_wf(apply_step(s, trace.first()), trace.drop_first());
    }
}

/// Whatever a pool does from construction — any number of submissions,
/// removals, completions and failures, in any order the steps allow — the
/// items delivered are exactly the first so-many items submitted, in
/// submission order; and once a run has drained the queue, every submitted
/// item has been delivered to a worker exactly once.
pub proof fn lemma_every_run_delivers_in_order(size: nat, trace: Seq<Step>)
    requires
        size > 0,
        trace_enabled(init(size), trace),
    ensures
        ({
            let end = run_trace(init(size), trace);
            &&& end.delivered == end.submitted.take(end.delivered.len() as int)
            &&& end.pending.len() == 0 ==> end.delivered == end.submitted
        }),
{
    lemma_init(size);
    lemma_run_preserves_wf(init(size), trace);
    let end = run_trace(init(size), trace);
    lemma_delivered_in_order(end);
    if end.pending.len() == 0 {
        lemma_drained_delivers_all(end);
    }
}

} // verus!
