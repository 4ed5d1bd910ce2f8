//! The guarantees of the task state machine, stated and proved over the
//! transition functions of [`crate::task`].

use vstd::prelude::*;

use crate::task::cancel_reason;
use crate::task::spec_cancel;
use crate::task::spec_poll;
use crate::task::spec_poll_status;
use crate::task::spec_worker_step;
use crate::task::wf;
use crate::task::OutcomeModel;
use crate::task::Phase;
use crate::task::PollStatusModel;
use crate::task::TaskModel;
use crate::task::COMPLETED_VALUE;
use crate::task::WORK_UNITS;

verus! {

/// A cancellation request is idempotent: requesting cancellation twice leaves
/// the task in exactly the state one request leaves it in.  Together with the
/// contract of `CancelToken::cancel` — which depends only on the token's
/// identity, shared by all its clones — any number of requests from any
/// clones has the effect of a single one.
pub proof fn lemma_cancel_idempotent(t: TaskModel)
    ensures
        spec_cancel(spec_cancel(t)) == spec_cancel(t),
{
}

/// The cancellation flag is monotone: once set, no operation ever clears it.
pub proof fn lemma_flag_monotone(t: TaskModel, wake: int)
    requires
        t.cancel_requested,
    ensures
        spec_cancel(t).cancel_requested,
        spec_worker_step(t).cancel_requested,
        spec_poll(t, wake).cancel_requested,
{
}

/// Lazy start: only `poll` ever spawns the worker — a cancellation request, a
/// worker step, and discarding the handle leave the worker count and the
/// phase alone — a task that was never polled has no worker, and a polled
/// task has exactly one.
pub proof fn lemma_lazy_start(t: TaskModel, wake: int)
    ensures
        spec_cancel(t).workers_spawned == t.workers_spawned,
        spec_cancel(t).phase == t.phase,
        spec_worker_step(t).workers_spawned == t.workers_spawned,
        spec_worker_step(t).phase == t.phase,
        wf(t) && t.phase == Phase::NotStarted ==> t.workers_spawned == 0,
        wf(t) ==> spec_poll(t, wake).workers_spawned == 1,
{
}

/// Single outcome: the shared slot is written at most once.  Neither `poll`
/// nor a cancellation request ever counts as a write; a worker step — which
/// is only taken while no outcome has been written — adds at most one; and in
/// every well-formed state the write count stays at most one.
pub proof fn lemma_single_write(t: TaskModel, wake: int)
    requires
        wf(t),
    ensures
        spec_cancel(t).outcome_writes == t.outcome_writes,
        spec_poll(t, wake).outcome_writes == t.outcome_writes,
        spec_worker_step(t).outcome_writes <= t.outcome_writes + 1,
        wf(spec_cancel(t)),
        t.outcome_writes == 0 ==> spec_worker_step(t).outcome_writes <= 1,
{
}

/// A written outcome is stable: a cancellation request leaves the slot
/// untouched, and the only transition that empties it is the `poll` that
/// returns exactly that value to the caller.
pub proof fn lemma_outcome_stable(t: TaskModel, wake: int)
    requires
        wf(t),
        t.slot is Some,
    ensures
        spec_cancel(t).slot == t.slot,
        spec_poll(t, wake).slot is None,
        spec_poll(t, wake).phase == Phase::Finished,
        spec_poll_status(t) == PollStatusModel::Ready(t.slot->0),
{
}

/// If the worker observes the cancellation flag at one of its check points —
/// that is, before it has performed all its work units — the outcome is
/// `Cancelled` with the fixed reason.
pub proof fn lemma_cancel_observed_wins(t: TaskModel)
    requires
        wf(t),
        t.phase == Phase::Running,
        t.outcome_writes == 0,
        t.cancel_requested,
        t.steps_done < WORK_UNITS,
    ensures
        spec_worker_step(t).slot == Some(OutcomeModel::Cancelled(cancel_reason())),
        spec_worker_step(t).outcome_writes == 1,
{
}

/// Once the worker has performed all its work units it completes with the
/// final value even if cancellation was requested concurrently: the flag is
/// checked only before a work unit, never after the last one.
pub proof fn lemma_completion_beats_late_cancel(t: TaskModel)
    requires
        wf(t),
        t.phase == Phase::Running,
        t.outcome_writes == 0,
        t.steps_done == WORK_UNITS,
    ensures
        spec_worker_step(t).slot == Some(OutcomeModel::Completed(COMPLETED_VALUE as int)),
        spec_worker_step(t).outcome_writes == 1,
{
}

/// A cancellation request is never silently dropped: once the flag is set, a
/// live worker writes a terminal outcome at its very next iteration — either
/// `Cancelled`, or `Completed` if only the final write was left — so the
/// latency until the outcome is bounded by one work unit.
pub proof fn lemma_cancel_latency_bounded(t: TaskModel)
    requires
        wf(t),
        t.phase == Phase::Running,
        t.outcome_writes == 0,
        t.cancel_requested,
    ensures
        spec_worker_step(t).outcome_writes == 1,
        spec_worker_step(t).slot is Some,
{
}

/// No lost wake: while a wake callback is registered, the worker step that
/// writes the terminal outcome delivers exactly that callback and clears the
/// registration, and a step that only performs work keeps the registration
/// for the step that will write.  `poll` and cancellation requests never
/// deliver or discard a wake, so the one delivery happens with the one write.
pub proof fn lemma_no_lost_wake(t: TaskModel, w: int, wake: int)
    requires
        wf(t),
        t.phase == Phase::Running,
        t.outcome_writes == 0,
        t.registered_wake == Some(w),
    ensures
        spec_worker_step(t).outcome_writes == 1 ==> spec_worker_step(t).delivered_wake == Some(w)
            && spec_worker_step(t).registered_wake is None,
        spec_worker_step(t).outcome_writes == 0 ==> spec_worker_step(t).registered_wake == Some(w)
            && spec_worker_step(t).delivered_wake is None,
        spec_cancel(t).delivered_wake == t.delivered_wake,
        spec_cancel(t).registered_wake == t.registered_wake,
        spec_poll(t, wake).delivered_wake == t.delivered_wake,
{
}

/// The task after the worker has taken `n` loop iterations, stopping once it
/// is no longer live (an outcome was written, or it was never running).
pub open spec fn spec_run_worker(t: TaskModel, n: nat) -> TaskModel
    decreases n,
{
    if n == 0 {
        t
    } else {
        let prev = spec_run_worker(t, (n - 1) as nat);
        if prev.phase == Phase::Running && prev.outcome_writes == 0 {
            spec_worker_step(prev)
        } else {
            prev
        }
    }
}

/// On an uninterrupted run the first `k` iterations only perform work units:
/// with the flag never set, after `k` iterations exactly `k` units are done
/// and nothing else has changed.
proof fn lemma_run_worker_progress(t: TaskModel, k: nat)
    requires
        t.phase == Phase::Running,
        t.outcome_writes == 0,
        t.steps_done == 0,
        !t.cancel_requested,
        k <= WORK_UNITS,
    ensures
        spec_run_worker(t, k) == (TaskModel { steps_done: k, ..t }),
    decreases k,
{
    if k > 0 {
        lemma_run_worker_progress(t, (k - 1) as nat);
    }
}

/// An uninterrupted worker completes: started fresh with no cancellation ever
/// requested, one iteration per work unit plus the final write leave
/// `Completed` with the final value in the slot.
pub proof fn lemma_uninterrupted_run_completes(t: TaskModel)
    requires
        wf(t),
        t.phase == Phase::Running,
        t.outcome_writes == 0,
        t.steps_done == 0,
        !t.cancel_requested,
    ensures
        spec_run_worker(t, (WORK_UNITS + 1) as nat).slot == Some(
            OutcomeModel::Completed(COMPLETED_VALUE as int),
        ),
        spec_run_worker(t, (WORK_UNITS + 1) as nat).outcome_writes == 1,
{
    lemma_run_worker_progress(t, WORK_UNITS as nat);
}

} // verus!
