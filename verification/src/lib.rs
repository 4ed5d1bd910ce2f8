//! A cancellable, lazily started, single-shot asynchronous computation,
//! modelled and verified as an explicit state machine.
//!
//! The library captures the full lifecycle of one background task: a task and
//! its [`task::CancelToken`] are created together; no worker exists until the
//! first [`task::CancellableTask::poll`]; the worker then performs a bounded
//! number of work units, checking a shared cancellation flag before each one,
//! and finally writes exactly one terminal [`task::Outcome`] — either
//! `Completed` or `Cancelled` — into a shared slot, waking the registered
//! waiter.  An unverified driver is expected to run the worker loop on a real
//! execution context and to route every decision through the verified
//! transition functions in [`task`]; the laws in [`laws`] state the guarantees
//! of the state machine itself: a single outcome, lazy start, idempotent
//! cancellation, no lost wakeups, and completion winning over a cancellation
//! request that arrives after the last check point.

pub mod laws;
pub mod task;
