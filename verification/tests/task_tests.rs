use cancellable_task::task::CancelToken;
use cancellable_task::task::CancellableTask;
use cancellable_task::task::Outcome;
use cancellable_task::task::Phase;
use cancellable_task::task::PollStatus;
use cancellable_task::task::WorkerAction;
use cancellable_task::task::worker_decide;

/// Drives the worker until it has written an outcome, counting iterations.
fn run_worker_to_write(task: &mut CancellableTask) -> u32 {
    let mut iterations: u32 = 0;
    while task.outcome_writes == 0 {
        task.worker_step();
        iterations += 1;
    }
    iterations
}

#[test]
fn never_polled_discard_spawns_nothing() {
    let (mut task, _token) = CancellableTask::new(1);
    assert_eq!(task.workers_spawned, 0);
    task.abandon();
    assert_eq!(task.workers_spawned, 0);
    assert!(task.cancel_requested);
    assert!(task.slot.is_none());
    assert_eq!(task.phase, Phase::NotStarted);
}

#[test]
fn uninterrupted_run_completes_with_42() {
    let (mut task, _token) = CancellableTask::new(2);
    match task.poll(1) {
        PollStatus::Pending => {}
        PollStatus::Ready(_) => panic!("no outcome can be ready before the worker ran"),
    }
    assert_eq!(task.workers_spawned, 1);
    let iterations = run_worker_to_write(&mut task);
    assert_eq!(iterations, 11, "ten work units plus the completing write");
    assert_eq!(task.steps_done, 10);
    match task.poll(2) {
        PollStatus::Ready(Outcome::Completed(v)) => assert_eq!(v, 42),
        _ => panic!("an uninterrupted worker must complete"),
    }
    assert_eq!(task.phase, Phase::Finished);
}

#[test]
fn cancel_right_after_poll_cancels_within_one_step() {
    let (mut task, token) = CancellableTask::new(3);
    match task.poll(5) {
        PollStatus::Pending => {}
        PollStatus::Ready(_) => panic!("first poll cannot be ready"),
    }
    token.cancel(&mut task);
    task.worker_step();
    assert_eq!(task.outcome_writes, 1, "the very next check point observes the flag");
    assert_eq!(task.steps_done, 0, "no further work unit was performed");
    match task.poll(6) {
        PollStatus::Ready(Outcome::Cancelled(reason)) => {
            assert_eq!(reason, "cancelled by token");
        }
        _ => panic!("a cancelled worker must report Cancelled"),
    }
}

#[test]
fn deadline_expiry_discard_sets_the_flag() {
    let (mut task, _token) = CancellableTask::new(4);
    match task.poll(7) {
        PollStatus::Pending => {}
        PollStatus::Ready(_) => panic!("first poll cannot be ready"),
    }
    task.worker_step();
    task.worker_step();
    // The external deadline expires: the waiting context discards the handle.
    task.abandon();
    assert!(task.cancel_requested);
    // The worker observes the request at its next check point.
    task.worker_step();
    match task.slot {
        Some(Outcome::Cancelled(ref reason)) => assert_eq!(reason, "cancelled by token"),
        _ => panic!("the abandoned worker must cancel"),
    }
    assert_eq!(task.delivered_wake, Some(7));
}

#[test]
fn cancel_is_idempotent_across_clones() {
    let (mut task, token) = CancellableTask::new(5);
    let clone_a: CancelToken = token.clone();
    let clone_b: CancelToken = token;
    token.cancel(&mut task);
    let after_one = (
        task.phase,
        task.cancel_requested,
        task.steps_done,
        task.outcome_writes,
        task.workers_spawned,
    );
    clone_a.cancel(&mut task);
    clone_b.cancel(&mut task);
    token.cancel(&mut task);
    let after_many = (
        task.phase,
        task.cancel_requested,
        task.steps_done,
        task.outcome_writes,
        task.workers_spawned,
    );
    assert_eq!(after_one, after_many);
    assert!(task.slot.is_none());
}

#[test]
fn foreign_token_has_no_effect() {
    let (mut task, _own) = CancellableTask::new(6);
    let (_other_task, other_token) = CancellableTask::new(7);
    other_token.cancel(&mut task);
    assert!(!task.cancel_requested);
}

#[test]
fn at_most_one_worker_is_spawned() {
    let (mut task, _token) = CancellableTask::new(8);
    assert_eq!(task.workers_spawned, 0);
    match task.poll(1) {
        PollStatus::Pending => {}
        PollStatus::Ready(_) => panic!("first poll cannot be ready"),
    }
    assert_eq!(task.workers_spawned, 1);
    match task.poll(2) {
        PollStatus::Pending => {}
        PollStatus::Ready(_) => panic!("no outcome was written yet"),
    }
    assert_eq!(task.workers_spawned, 1);
}

#[test]
fn latest_registered_wake_is_the_one_delivered() {
    let (mut task, _token) = CancellableTask::new(9);
    match task.poll(1) {
        PollStatus::Pending => {}
        PollStatus::Ready(_) => panic!("first poll cannot be ready"),
    }
    assert_eq!(task.registered_wake, Some(1));
    // A later poll replaces the earlier registration.
    match task.poll(2) {
        PollStatus::Pending => {}
        PollStatus::Ready(_) => panic!("no outcome was written yet"),
    }
    assert_eq!(task.registered_wake, Some(2));
    assert_eq!(task.delivered_wake, None);
    run_worker_to_write(&mut task);
    assert_eq!(task.delivered_wake, Some(2));
    assert_eq!(task.registered_wake, None);
}

#[test]
fn written_outcome_survives_further_cancel_requests() {
    let (mut task, token) = CancellableTask::new(10);
    match task.poll(3) {
        PollStatus::Pending => {}
        PollStatus::Ready(_) => panic!("first poll cannot be ready"),
    }
    run_worker_to_write(&mut task);
    assert_eq!(task.outcome_writes, 1);
    token.cancel(&mut task);
    token.cancel(&mut task);
    assert_eq!(task.outcome_writes, 1, "cancellation never writes a second outcome");
    match task.slot {
        Some(Outcome::Completed(v)) => assert_eq!(v, 42),
        _ => panic!("the completed outcome must still be in the slot"),
    }
    match task.poll(4) {
        PollStatus::Ready(Outcome::Completed(v)) => assert_eq!(v, 42),
        _ => panic!("poll must return the written outcome"),
    }
    // The slot is consumed exactly once; cancelling afterwards is still a no-op.
    assert!(task.slot.is_none());
    token.cancel(&mut task);
    assert_eq!(task.outcome_writes, 1);
}

#[test]
fn worker_decision_table() {
    assert_eq!(worker_decide(0, false), WorkerAction::DoWork);
    assert_eq!(worker_decide(9, false), WorkerAction::DoWork);
    assert_eq!(worker_decide(0, true), WorkerAction::WriteCancelled);
    assert_eq!(worker_decide(9, true), WorkerAction::WriteCancelled);
    // After the last work unit the flag is no longer checked.
    assert_eq!(worker_decide(10, false), WorkerAction::WriteCompleted);
    assert_eq!(worker_decide(10, true), WorkerAction::WriteCompleted);
}

#[test]
fn cancel_observed_mid_run_discards_remaining_work() {
    let (mut task, token) = CancellableTask::new(11);
    match task.poll(1) {
        PollStatus::Pending => {}
        PollStatus::Ready(_) => panic!("first poll cannot be ready"),
    }
    for _ in 0..4 {
        task.worker_step();
    }
    assert_eq!(task.steps_done, 4);
    token.cancel(&mut task);
    task.worker_step();
    assert_eq!(task.steps_done, 4, "no work unit after the flag was observed");
    match task.slot {
        Some(Outcome::Cancelled(ref reason)) => assert_eq!(reason, "cancelled by token"),
        _ => panic!("the worker must cancel once it observes the flag"),
    }
}

#[test]
fn cancel_after_last_work_unit_still_completes() {
    let (mut task, token) = CancellableTask::new(12);
    match task.poll(1) {
        PollStatus::Pending => {}
        PollStatus::Ready(_) => panic!("first poll cannot be ready"),
    }
    for _ in 0..10 {
        task.worker_step();
    }
    assert_eq!(task.steps_done, 10);
    assert_eq!(task.outcome_writes, 0, "the completing write is its own step");
    // Cancellation arrives after the last check point: completion wins.
    token.cancel(&mut task);
    task.worker_step();
    match task.slot {
        Some(Outcome::Completed(v)) => assert_eq!(v, 42),
        _ => panic!("a worker past its last check point completes"),
    }
}
