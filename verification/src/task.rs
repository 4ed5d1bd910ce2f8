//! The cancellable task itself: its data, its mathematical model, and the
//! verified transition functions that every observable operation follows.

use vstd::prelude::*;

verus! {

/// Number of work units the worker performs on an uninterrupted run.
pub const WORK_UNITS: u8 = 10;

/// Value the worker produces when it completes all its work units.
pub const COMPLETED_VALUE: i32 = 42;

/// Reason recorded when the worker observes a cancellation request at one of
/// its check points.
pub open spec fn cancel_reason() -> Seq<char> {
    "cancelled by token"@
}

/// Terminal result of a task: the worker either ran all its work units and
/// produced a value, or observed a cancellation request first.
#[derive(Debug)]
pub enum Outcome {
    Completed(i32),
    Cancelled(String),
}

/// Mathematical image of an [`Outcome`]: the reason is seen as a sequence of
/// characters.
pub enum OutcomeModel {
    Completed(int),
    Cancelled(Seq<char>),
}

impl View for Outcome {
    type V = OutcomeModel;

    open spec fn view(&self) -> OutcomeModel {
        match self {
            Outcome::Completed(v) => OutcomeModel::Completed(*v as int),
            Outcome::Cancelled(r) => OutcomeModel::Cancelled(r@),
        }
    }
}

/// What one `poll` reports to the waiting context.
#[derive(Debug)]
pub enum PollStatus {
    Pending,
    Ready(Outcome),
}

/// Mathematical image of a [`PollStatus`].
pub enum PollStatusModel {
    Pending,
    Ready(OutcomeModel),
}

impl View for PollStatus {
    type V = PollStatusModel;

    open spec fn view(&self) -> PollStatusModel {
        match self {
            PollStatus::Pending => PollStatusModel::Pending,
            PollStatus::Ready(o) => PollStatusModel::Ready(o@),
        }
    }
}

/// Lifecycle phase of the task: created but never observed, worker spawned,
/// or terminal outcome already returned to the caller.
#[derive(Clone, Copy, Debug, PartialEq, Eq, Structural)]
pub enum Phase {
    NotStarted,
    Running,
    Finished,
}

/// The decision the worker takes at the top of one loop iteration.
#[derive(Clone, Copy, Debug, PartialEq, Eq, Structural)]
pub enum WorkerAction {
    /// The cancellation flag was seen set: write `Cancelled` and stop.
    WriteCancelled,
    /// Perform one more work unit.
    DoWork,
    /// All work units are done: write `Completed` and stop.
    WriteCompleted,
}

/// A cancellable, lazily started, single-shot task, together with the
/// bookkeeping that its guarantees are stated over: the shared cancellation
/// flag, the shared outcome slot, the wake registration, and counters for
/// spawned workers and outcome writes.
pub struct CancellableTask {
    /// Identity linking the task to the cancel tokens created with it.
    pub id: u64,
    /// Lifecycle phase as the waiting context sees it.
    pub phase: Phase,
    /// The shared cancellation flag: set by [`CancelToken::cancel`] or by
    /// [`CancellableTask::abandon`], and never cleared.
    pub cancel_requested: bool,
    /// Work units the worker has performed so far, at most [`WORK_UNITS`].
    pub steps_done: u8,
    /// The shared outcome slot: written at most once by the worker and taken
    /// by the `poll` that returns it.
    pub slot: Option<Outcome>,
    /// The wake callback currently registered by the waiting context,
    /// identified by the value passed to `poll`.
    pub registered_wake: Option<u64>,
    /// The wake callback the worker invoked when it wrote the outcome.
    pub delivered_wake: Option<u64>,
    /// How many times an outcome has been written; never exceeds one.
    pub outcome_writes: u8,
    /// How many workers have been spawned; never exceeds one.
    pub workers_spawned: u8,
}

/// Mathematical model of a [`CancellableTask`].
pub struct TaskModel {
    pub id: int,
    pub phase: Phase,
    pub cancel_requested: bool,
    pub steps_done: nat,
    pub slot: Option<OutcomeModel>,
    pub registered_wake: Option<int>,
    pub delivered_wake: Option<int>,
    pub outcome_writes: nat,
    pub workers_spawned: nat,
}

impl View for CancellableTask {
    type V = TaskModel;

    open spec fn view(&self) -> TaskModel {
        TaskModel {
            id: self.id as int,
            phase: self.phase,
            cancel_requested: self.cancel_requested,
            steps_done: self.steps_done as nat,
            slot: match self.slot {
                Some(o) => Some(o@),
                None => None,
            },
            registered_wake: match self.registered_wake {
                Some(w) => Some(w as int),
                None => None,
            },
            delivered_wake: match self.delivered_wake {
                Some(w) => Some(w as int),
                None => None,
            },
            outcome_writes: self.outcome_writes as nat,
            workers_spawned: self.workers_spawned as nat,
        }
    }
}

/// Consistency of a written outcome with the state it was written in: the
/// worker completes only with the final value after all work units, and
/// cancels only with the fixed reason and only if cancellation was requested.
pub open spec fn outcome_wf(o: OutcomeModel, t: TaskModel) -> bool {
    match o {
        OutcomeModel::Completed(v) => v == COMPLETED_VALUE && t.steps_done == WORK_UNITS,
        OutcomeModel::Cancelled(r) => r == cancel_reason() && t.cancel_requested,
    }
}

/// Well-formedness: every state reachable through the operations below
/// satisfies this predicate.
pub open spec fn wf(t: TaskModel) -> bool {
    &&& t.outcome_writes <= 1
    &&& t.steps_done <= WORK_UNITS
    &&& t.workers_spawned <= 1
    &&& (t.phase == Phase::NotStarted ==> t.workers_spawned == 0 && t.outcome_writes == 0
        && t.steps_done == 0 && t.registered_wake is None)
    &&& (t.phase != Phase::NotStarted ==> t.workers_spawned == 1)
    &&& (t.outcome_writes == 0 ==> t.slot is None && t.delivered_wake is None)
    &&& (t.slot is Some ==> t.outcome_writes == 1)
    &&& (t.phase == Phase::Finished ==> t.outcome_writes == 1 && t.slot is None)
    &&& (t.phase == Phase::Running && t.outcome_writes == 1 ==> t.slot is Some)
    &&& (t.outcome_writes == 1 ==> t.registered_wake is None)
    &&& (t.slot matches Some(o) ==> outcome_wf(o, t))
}

/// The state a freshly created task is in: nothing spawned, nothing written,
/// nothing registered, flag unset.
pub open spec fn spec_new(id: int) -> TaskModel {
    TaskModel {
        id: id,
        phase: Phase::NotStarted,
        cancel_requested: false,
        steps_done: 0,
        slot: None,
        registered_wake: None,
        delivered_wake: None,
        outcome_writes: 0,
        workers_spawned: 0,
    }
}

/// State after a cancellation request: only the shared flag changes, and only
/// from unset to set.
pub open spec fn spec_cancel(t: TaskModel) -> TaskModel {
    TaskModel { cancel_requested: true, ..t }
}

/// The worker's decision at the top of one loop iteration, given how many
/// work units it has performed and the value it just read from the
/// cancellation flag.  The flag is checked before each work unit and never
/// after the last one: once all units are done the worker completes even if
/// the flag is set.
pub open spec fn spec_worker_decide(steps_done: nat, cancel_seen: bool) -> WorkerAction {
    if steps_done < WORK_UNITS {
        if cancel_seen {
            WorkerAction::WriteCancelled
        } else {
            WorkerAction::DoWork
        }
    } else {
        WorkerAction::WriteCompleted
    }
}

/// State after one worker loop iteration.  A terminal write fills the slot,
/// counts the write, and atomically takes the registered wake callback and
/// delivers it, all in one transition — the mutual-exclusion region of the
/// shared slot.
pub open spec fn spec_worker_step(t: TaskModel) -> TaskModel {
    match spec_worker_decide(t.steps_done, t.cancel_requested) {
        WorkerAction::DoWork => TaskModel { steps_done: t.steps_done + 1, ..t },
        WorkerAction::WriteCancelled => TaskModel {
            slot: Some(OutcomeModel::Cancelled(cancel_reason())),
            outcome_writes: t.outcome_writes + 1,
            delivered_wake: t.registered_wake,
            registered_wake: None,
            ..t
        },
        WorkerAction::WriteCompleted => TaskModel {
            slot: Some(OutcomeModel::Completed(COMPLETED_VALUE as int)),
            outcome_writes: t.outcome_writes + 1,
            delivered_wake: t.registered_wake,
            registered_wake: None,
            ..t
        },
    }
}

/// First half of a `poll`: on the very first call the worker is spawned and
/// the task starts running; afterwards this is the identity.
pub open spec fn spec_start(t: TaskModel) -> TaskModel {
    if t.phase == Phase::NotStarted {
        TaskModel { phase: Phase::Running, workers_spawned: t.workers_spawned + 1, ..t }
    } else {
        t
    }
}

/// Full state transition of one `poll`: start the worker if needed, then
/// either consume a written outcome or (re-)register the wake callback.
pub open spec fn spec_poll(t: TaskModel, wake: int) -> TaskModel {
    let s = spec_start(t);
    if s.slot is Some {
        TaskModel { slot: None, phase: Phase::Finished, ..s }
    } else {
        TaskModel { registered_wake: Some(wake), ..s }
    }
}

/// What that same `poll` returns: the written outcome if one is present,
/// `Pending` otherwise.
pub open spec fn spec_poll_status(t: TaskModel) -> PollStatusModel {
    let s = spec_start(t);
    if s.slot is Some {
        PollStatusModel::Ready(s.slot->0)
    } else {
        PollStatusModel::Pending
    }
}

impl CancellableTask {
    /// Creates a task in its initial phase together with the cancel token
    /// bound to it.  No worker is spawned and no work is performed yet; `id`
    /// is the caller-chosen identity that ties task and token together.
    pub fn new(id: u64) -> (r: (CancellableTask, CancelToken))
        ensures
            r.0@ == spec_new(id as int),
            r.1.id == id,
            wf(r.0@),
    {
        let task = CancellableTask {
            id,
            phase: Phase::NotStarted,
            cancel_requested: false,
            steps_done: 0,
            slot: None,
            registered_wake: None,
            delivered_wake: None,
            outcome_writes: 0,
            workers_spawned: 0,
        };
        let token = CancelToken { id };
        (task, token)
    }
}

/// Cloneable capability to request cancellation of the task it was created
/// with.  Clones share the identity, so every clone acts on the same flag.
#[derive(Clone, Copy, Debug)]
pub struct CancelToken {
    /// Identity of the task this token belongs to.
    pub id: u64,
}

impl CancelToken {
    /// Requests cancellation of the task this token was created with by
    /// setting the shared flag.  Safe to call any number of times, in every
    /// phase, and after the task has finished; a token never affects a task
    /// it does not belong to.
    pub fn cancel(&self, task: &mut CancellableTask)
        ensures
            self.id == old(task).id ==> final(task)@ == spec_cancel(old(task)@),
            self.id != old(task).id ==> *final(task) == *old(task),
            wf(old(task)@) ==> wf(final(task)@),
    {
        if self.id == task.id {
            task.cancel_requested = true;
        }
    }
}

/// The worker's decision at the top of one loop iteration: check the
/// cancellation flag before each work unit, complete once all units are done.
/// An unverified execution context drives the worker by calling this with the
/// current flag value and acting on the result.
pub fn worker_decide(steps_done: u8, cancel_seen: bool) -> (a: WorkerAction)
    ensures
        a == spec_worker_decide(steps_done as nat, cancel_seen),
{
    if steps_done < WORK_UNITS {
        if cancel_seen {
            WorkerAction::WriteCancelled
        } else {
            WorkerAction::DoWork
        }
    } else {
        WorkerAction::WriteCompleted
    }
}

impl CancellableTask {
    /// Models discarding the task handle before a terminal outcome was
    /// observed: cancellation is requested on the shared flag as a
    /// best-effort side effect, and nothing waits for the worker to
    /// acknowledge it.
    pub fn abandon(&mut self)
        ensures
            final(self)@ == spec_cancel(old(self)@),
            wf(old(self)@) ==> wf(final(self)@),
    {
        self.cancel_requested = true;
    }

    /// The sole driving operation of the waiting context.  The first call
    /// spawns the worker; every call then either consumes and returns the
    /// terminal outcome, or registers `wake` — replacing any earlier
    /// registration — and reports `Pending`.  A task whose outcome was
    /// already returned is consumed and must not be polled again.
    pub fn poll(&mut self, wake: u64) -> (s: PollStatus)
        requires
            wf(old(self)@),
            old(self)@.phase != Phase::Finished,
        ensures
            final(self)@ == spec_poll(old(self)@, wake as int),
            s@ == spec_poll_status(old(self)@),
            wf(final(self)@),
    {
        if self.phase == Phase::NotStarted {
            self.phase = Phase::Running;
            self.workers_spawned = self.workers_spawned + 1;
        }
        match self.slot.take() {
            Some(o) => {
                self.phase = Phase::Finished;
                PollStatus::Ready(o)
            },
            None => {
                self.registered_wake = Some(wake);
                PollStatus::Pending
            },
        }
    }

    /// One iteration of the worker's loop, taken only while the worker is
    /// live: the task is running and no outcome has been written.  Within one
    /// exclusive region the worker either performs a work unit or writes the
    /// terminal outcome, taking and delivering the registered wake callback
    /// together with the write.
    pub fn worker_step(&mut self)
        requires
            wf(old(self)@),
            old(self)@.phase == Phase::Running,
            old(self)@.outcome_writes == 0,
        ensures
            final(self)@ == spec_worker_step(old(self)@),
            wf(final(self)@),
    {
        match worker_decide(self.steps_done, self.cancel_requested) {
            WorkerAction::DoWork => {
                self.steps_done = self.steps_done + 1;
            },
            WorkerAction::WriteCancelled => {
                self.slot = Some(Outcome::Cancelled("cancelled by token".to_owned()));
                self.outcome_writes = 1;
                self.delivered_wake = self.registered_wake;
                self.registered_wake = None;
            },
            WorkerAction::WriteCompleted => {
                self.slot = Some(Outcome::Completed(COMPLETED_VALUE));
                self.outcome_writes = 1;
                self.delivered_wake = self.registered_wake;
                self.registered_wake = None;
            },
        }
    }
}

} // verus!
