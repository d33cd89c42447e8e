//! The decisions of a task handle: what a task that could not be queued
//! reports, when the handle may cancel its task, and what a poll of the
//! task's result resolves to. The handle itself (a future polled by the
//! async runtime) drives these.
use crate::internal::worker::{send_error_spec, StatusCell, StatusModel, WorkerFlagSnapshot, WorkerSendError};
use crate::internal::{PanicPayload, ReceivePoll};
use crate::task_error::{TaskError, TaskErrorKind};
use vstd::prelude::*;

verus! {

/// The kind of error reported by a task that could not be queued.
pub open spec fn unspawned_kind(reason: WorkerSendError) -> TaskErrorKind {
    match reason {
        WorkerSendError::PrevTaskPanic { .. } => TaskErrorKind::PreviousTaskPanic,
        WorkerSendError::RuntimeShutdown => TaskErrorKind::RuntimeShutdown,
        WorkerSendError::TaskSenderUnavailable => TaskErrorKind::TaskSpawnerUnavailable,
    }
}

/// The error that a task which could not be queued resolves to.
pub fn unspawned_error<B>(reason: WorkerSendError) -> (e: TaskError<B>)
    ensures
        e.kind_spec() == unspawned_kind(reason),
        reason is PrevTaskPanic ==> e.prev_panic_msg_spec() == reason->PrevTaskPanic_panic_msg,
{
    match reason {
        WorkerSendError::PrevTaskPanic { panic_msg } => TaskError::prev_task_panicked(panic_msg),
        WorkerSendError::RuntimeShutdown => TaskError::runtime_shutdown(),
        WorkerSendError::TaskSenderUnavailable => TaskError::worker_task_sender_unavailable(),
    }
}

/// Whether a handle may take its task out of the queue: only while the
/// worker runs normally. After an abort, a cancel or a task panic the worker
/// settles the queued tasks itself, so the handle reports that it did not
/// cancel the task.
pub fn may_cancel(flag: WorkerFlagSnapshot) -> (r: bool)
    ensures
        r == (flag == WorkerFlagSnapshot::Other),
{
    match flag {
        WorkerFlagSnapshot::AbortStarted => false,
        WorkerFlagSnapshot::CancelStarted => false,
        WorkerFlagSnapshot::TaskPanicked => false,
        WorkerFlagSnapshot::Other => true,
    }
}

/// The kind of error of a task whose channels both closed with nothing in
/// them: the handle's own cancel comes first (it only succeeds before the
/// worker is aborted or cancelled), then the worker's phase tells why the
/// task was dropped.
pub open spec fn vanished_kind(cancelled_by_handle: bool, flag: WorkerFlagSnapshot) -> TaskErrorKind {
    if cancelled_by_handle {
        TaskErrorKind::TaskCancelled
    } else {
        match flag {
            WorkerFlagSnapshot::AbortStarted => TaskErrorKind::WorkerAborted,
            WorkerFlagSnapshot::CancelStarted => TaskErrorKind::WorkerCancelled,
            WorkerFlagSnapshot::TaskPanicked => TaskErrorKind::PreviousTaskPanic,
            WorkerFlagSnapshot::Other => TaskErrorKind::RuntimeShutdown,
        }
    }
}

/// The error of a task that was dropped without running to its end.
pub fn vanished_error<B>(cancelled_by_handle: bool, status: &StatusCell) -> (e: TaskError<B>)
    ensures
        e.kind_spec() == vanished_kind(cancelled_by_handle, status@.flag),
        e.kind_spec() == TaskErrorKind::PreviousTaskPanic ==> e.prev_panic_msg_spec() == status@.recorded_msg(),
{
    if cancelled_by_handle {
        return TaskError::task_cancelled();
    }
    match status.flag() {
        WorkerFlagSnapshot::AbortStarted => TaskError::worker_aborted(),
        WorkerFlagSnapshot::CancelStarted => TaskError::worker_cancelled(),
        WorkerFlagSnapshot::TaskPanicked => TaskError::prev_task_panicked(status.panic_msg()),
        WorkerFlagSnapshot::Other => TaskError::runtime_shutdown(),
    }
}

/// What a poll of a task's result resolves to: `None` while it is pending.
/// The value and the panic come as they are; a task that vanished reports
/// why it was dropped.
pub fn settle_poll<R, B>(received: ReceivePoll<R, B>, cancelled_by_handle: bool, status: &StatusCell) -> (r: Option<
    Result<R, TaskError<B>>,
>)
    ensures
        (r is None) == (received is Pending),
        received is Value ==> r == Some(Ok::<R, TaskError<B>>(received->Value_0)),
        received is Panicked ==> r is Some && r->Some_0 is Err && r->Some_0->Err_0.kind_spec()
            == TaskErrorKind::TaskPanic && r->Some_0->Err_0.panic_spec() == received->Panicked_0,
        received is Vanished ==> r is Some && r->Some_0 is Err && r->Some_0->Err_0.kind_spec() == vanished_kind(
            cancelled_by_handle,
            status@.flag,
        ),
        received is Vanished && vanished_kind(cancelled_by_handle, status@.flag) == TaskErrorKind::PreviousTaskPanic
            ==> r->Some_0->Err_0.prev_panic_msg_spec() == status@.recorded_msg(),
{
    match received {
        ReceivePoll::Pending => None,
        ReceivePoll::Value(value) => Some(Ok(value)),
        ReceivePoll::Panicked(panic) => Some(Err(TaskError::task_panicked(panic))),
        ReceivePoll::Vanished => Some(Err(vanished_error(cancelled_by_handle, status))),
    }
}

/// Whether a pending handle takes its task out of the queue itself: once
/// the worker is being cancelled, the queued tasks behind a running one
/// would otherwise only be settled after the running task completes.
/// A handle that takes its task out this way reports `WorkerCancelled`.
pub fn cancel_when_pending(flag: WorkerFlagSnapshot) -> (r: bool)
    ensures
        r == (flag == WorkerFlagSnapshot::CancelStarted),
{
    match flag {
        WorkerFlagSnapshot::CancelStarted => true,
        _ => false,
    }
}

/// A task reports a panic of its own only when its job panicked: every
/// other resolution is a value or a cancellation of some kind.
pub proof fn law_only_a_panicking_job_reports_task_panic(cancelled_by_handle: bool, flag: WorkerFlagSnapshot)
    ensures
        vanished_kind(cancelled_by_handle, flag) != TaskErrorKind::TaskPanic,
{
}

/// A handle that cancelled its task always reports `TaskCancelled` for it,
/// whatever happened to the worker afterwards.
pub proof fn law_handle_cancel_wins(flag: WorkerFlagSnapshot)
    ensures
        vanished_kind(true, flag) == TaskErrorKind::TaskCancelled,
{
}

/// Once a task has panicked, every later task fails with the earlier panic:
/// a task that the worker's queue refuses reports `PreviousTaskPanic` with
/// the recorded message, and so does a queued task that the stopped worker
/// drops (unless its own handle cancelled it first).
pub proof fn law_after_a_panic_tasks_report_previous_panic(c: StatusModel)
    requires
        c.flag == WorkerFlagSnapshot::TaskPanicked,
    ensures
        send_error_spec(c) == (WorkerSendError::PrevTaskPanic { panic_msg: c.recorded_msg() }),
        unspawned_kind(send_error_spec(c)) == TaskErrorKind::PreviousTaskPanic,
        vanished_kind(false, c.flag) == TaskErrorKind::PreviousTaskPanic,
{
}

/// Once the worker is being aborted or cancelled its spawners are closed: a
/// task refused then reports `TaskSpawnerUnavailable`.
pub proof fn law_refused_after_abort_or_cancel_reports_unavailable_spawner(c: StatusModel)
    requires
        c.flag == WorkerFlagSnapshot::AbortStarted || c.flag == WorkerFlagSnapshot::CancelStarted,
    ensures
        unspawned_kind(send_error_spec(c)) == TaskErrorKind::TaskSpawnerUnavailable,
        unspawned_kind(WorkerSendError::TaskSenderUnavailable) == TaskErrorKind::TaskSpawnerUnavailable,
{
}

} // verus!
