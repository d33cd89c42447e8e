//! The handle of a worker whose Tokio task hands the state back itself, and
//! the weak sender that queues tasks onto it without keeping it alive.
use super::join_error::WorkerJoinError;
use super::send_error::{WorkerSendError, WorkerTaskSenderSendError};
use super::{offer_of, Offer};
use super::state::{has_flag, WorkerFlagsSnapshot, WorkerState, FLAG_ABORTED, FLAG_CANCELLED, FLAG_JOINED};
use crate::internal::channel::{
    abort_by_handle, abort_handle_is_finished, clone_weak_queue_sender, downgrade_queue_sender, send_to_queue,
    upgrade_queue_sender,
};
use std::borrow::Cow;
use std::sync::Arc;
use tokio::sync::mpsc;
use tokio::task::{AbortHandle, JoinHandle};
use vstd::prelude::*;

verus! {

/// Why a weak sender could not queue a task, given the worker's flags: an
/// abort comes first, then a join, then a cancel; with none of them the
/// queue closed because a task panicked.
pub open spec fn weak_send_error_spec(bits: u8, panic_msg: Option<Arc<String>>) -> WorkerTaskSenderSendError {
    if has_flag(bits, FLAG_ABORTED) {
        WorkerTaskSenderSendError::WorkerAborted
    } else if has_flag(bits, FLAG_JOINED) {
        WorkerTaskSenderSendError::WorkerJoined
    } else if has_flag(bits, FLAG_CANCELLED) {
        WorkerTaskSenderSendError::WorkerCancelled
    } else {
        WorkerTaskSenderSendError::PrevTaskPanic { panic_msg }
    }
}

pub fn weak_send_error(flags: &WorkerFlagsSnapshot, panic_msg: Option<Arc<String>>) -> (e: WorkerTaskSenderSendError)
    ensures
        e == weak_send_error_spec(flags.bits(), panic_msg),
{
    if flags.is_aborted() {
        WorkerTaskSenderSendError::WorkerAborted
    } else if flags.is_joined() {
        WorkerTaskSenderSendError::WorkerJoined
    } else if flags.is_cancelled() {
        WorkerTaskSenderSendError::WorkerCancelled
    } else {
        WorkerTaskSenderSendError::PrevTaskPanic { panic_msg }
    }
}

/// What became of a task that a weak sender offered: the queue took it, or
/// the queue was gone or refused it, with the worker's flags read afterwards
/// and the task panic message read with them.
pub enum WeakSendOutcome {
    Queued,
    Refused(WorkerFlagsSnapshot, Option<Arc<String>>),
}

/// The outcome of a weak sender's offer: the queue being gone counts as a
/// refusal; a refusal is explained by the worker's flags, read now, and by
/// the task panic message when no flag is set.
pub fn weak_send_outcome(offer: Offer, state: &WorkerState) -> (o: WeakSendOutcome)
    ensures
        (o is Queued) == (offer == Offer::Queued),
{
    match offer {
        Offer::Queued => WeakSendOutcome::Queued,
        Offer::SenderClosed | Offer::Refused => {
            let flags = state.flags();
            let panic_msg = if flags.is_aborted() || flags.is_joined() || flags.is_cancelled() {
                None
            } else {
                state.task_panic_msg()
            };
            WeakSendOutcome::Refused(flags, panic_msg)
        },
    }
}

/// The result of a weak sender's send, given what became of the task.
pub open spec fn weak_send_result_spec(outcome: WeakSendOutcome, state: Arc<WorkerState>) -> Result<
    Arc<WorkerState>,
    WorkerTaskSenderSendError,
> {
    match outcome {
        WeakSendOutcome::Queued => Ok(state),
        WeakSendOutcome::Refused(flags, panic_msg) => Err(weak_send_error_spec(flags.bits(), panic_msg)),
    }
}

/// Decides the result of a weak sender's send: a queued task yields the
/// worker's state, a refusal is explained by the flags (`weak_send_error`).
pub fn weak_send_result(outcome: WeakSendOutcome, state: Arc<WorkerState>) -> (r: Result<
    Arc<WorkerState>,
    WorkerTaskSenderSendError,
>)
    ensures
        r == weak_send_result_spec(outcome, state),
{
    match outcome {
        WeakSendOutcome::Queued => Ok(state),
        WeakSendOutcome::Refused(flags, panic_msg) => Err(weak_send_error(&flags, panic_msg)),
    }
}

/// A sender of tasks that does not keep the worker's queue open.
#[verifier::reject_recursive_types(T)]
pub struct WeakWorkerTaskSender<T> {
    task_tx: mpsc::WeakUnboundedSender<T>,
    worker_state: Arc<WorkerState>,
}

impl<T> WeakWorkerTaskSender<T> {
    /// The state of the worker this sender queues onto.
    pub closed spec fn state(&self) -> Arc<WorkerState> {
        self.worker_state
    }

    /// Queues a task while the worker's queue is open, returning the
    /// worker's state; or says why it could not.
    ///
    /// The result is `weak_send_result` of what became of the task.
    pub fn send(&self, task: T) -> (r: Result<Arc<WorkerState>, WorkerTaskSenderSendError>)
        ensures
            exists|o: WeakSendOutcome| r == weak_send_result_spec(o, self.state()),
            r is Ok ==> r->Ok_0 == self.state(),
    {
        let offered = match upgrade_queue_sender(&self.task_tx) {
            Some(task_tx) => Some(send_to_queue(&task_tx, task)),
            None => None,
        };
        let outcome = weak_send_outcome(offer_of(offered), &self.worker_state);
        let ghost seen = outcome;
        let r = weak_send_result(outcome, Arc::clone(&self.worker_state));
        assert(r == weak_send_result_spec(seen, self.state()));
        r
    }

    /// Another weak sender for the same worker.
    pub fn clone(&self) -> (c: Self)
        ensures
            c.state() == self.state(),
    {
        WeakWorkerTaskSender {
            task_tx: clone_weak_queue_sender(&self.task_tx),
            worker_state: Arc::clone(&self.worker_state),
        }
    }
}

/// How the Tokio task that hands the state back ended: it returned (the
/// state or the worker's error), or it failed, with the panic message if it
/// panicked with one.
pub enum StateTaskEnd<S> {
    Returned(Result<S, WorkerJoinError>),
    Failed(Option<String>),
}

/// What joining yields once the Tokio task that hands the state back ended.
pub fn state_task_join_result<S>(end: StateTaskEnd<S>) -> (r: Result<S, WorkerJoinError>)
    ensures
        end matches StateTaskEnd::Returned(result) ==> r == result,
        end matches StateTaskEnd::Failed(msg) ==> r is Err && (match msg {
            Some(m) => r->Err_0.msg() == Some(Cow::<'static, str>::Owned(m)),
            None => r->Err_0.msg() is None,
        }),
{
    match end {
        StateTaskEnd::Returned(result) => result,
        StateTaskEnd::Failed(msg) => match msg {
            Some(msg) => Err(WorkerJoinError::with_msg(Cow::Owned(msg))),
            None => Err(WorkerJoinError::with_no_msg()),
        },
    }
}

/// The error of a worker whose loop ended abnormally, given its flags and
/// the message of the panic that ended it: a cancel or an abort is named as
/// such; otherwise the task's panic message is reported.
pub fn worker_failure(flags: &WorkerFlagsSnapshot, panic_msg: Option<String>) -> (e: WorkerJoinError)
    ensures
        has_flag(flags.bits(), FLAG_CANCELLED) ==> e.msg() == Some(Cow::<'static, str>::Borrowed("worker canncelled")),
        !has_flag(flags.bits(), FLAG_CANCELLED) && has_flag(flags.bits(), FLAG_ABORTED) ==> e.msg() == Some(
            Cow::<'static, str>::Borrowed("worker aborted"),
        ),
        !has_flag(flags.bits(), FLAG_CANCELLED) && !has_flag(flags.bits(), FLAG_ABORTED) ==> (match panic_msg {
            Some(m) => e.msg() == Some(Cow::<'static, str>::Owned(m)),
            None => e.msg() is None,
        }),
{
    if flags.is_cancelled() {
        WorkerJoinError::with_msg(Cow::Borrowed("worker canncelled"))
    } else if flags.is_aborted() {
        WorkerJoinError::with_msg(Cow::Borrowed("worker aborted"))
    } else {
        match panic_msg {
            Some(msg) => WorkerJoinError::with_msg(Cow::Owned(msg)),
            None => WorkerJoinError::with_no_msg(),
        }
    }
}

/// The handle of a worker whose Tokio task hands the state back when it ends.
#[verifier::reject_recursive_types(S)]
#[verifier::reject_recursive_types(T)]
pub struct WorkerHandle<S, T> {
    worker_handle: AbortHandle,
    join_handle: JoinHandle<Result<S, WorkerJoinError>>,
    worker_state: Arc<WorkerState>,
    task_tx: mpsc::UnboundedSender<T>,
}

impl<S, T> WorkerHandle<S, T> {
    /// The state shared with the worker.
    pub closed spec fn state(&self) -> Arc<WorkerState> {
        self.worker_state
    }

    /// The Tokio task that hands the state back when the worker ends.
    pub closed spec fn state_task(&self) -> JoinHandle<Result<S, WorkerJoinError>> {
        self.join_handle
    }

    pub fn new(
        worker_handle: AbortHandle,
        join_handle: JoinHandle<Result<S, WorkerJoinError>>,
        worker_state: Arc<WorkerState>,
        task_tx: mpsc::UnboundedSender<T>,
    ) -> (h: Self)
        ensures
            h.state() == worker_state,
            h.state_task() == join_handle,
    {
        WorkerHandle { worker_handle, join_handle, worker_state, task_tx }
    }

    /// Queues a task. The handle's own queue only closes when the worker's
    /// loop stopped on a task panic (joining, aborting and cancelling consume
    /// the handle), so a refused task reports that panic.
    pub fn send(&self, task: T) -> (r: Result<Arc<WorkerState>, WorkerSendError>)
        ensures
            r is Ok ==> r->Ok_0 == self.state(),
            r is Err ==> r->Err_0 is PrevTaskPanic,
    {
        if send_to_queue(&self.task_tx, task).is_ok() {
            Ok(Arc::clone(&self.worker_state))
        } else {
            Err(WorkerSendError::PrevTaskPanic { panic_msg: self.worker_state.task_panic_msg() })
        }
    }

    /// A weak sender for this worker.
    pub fn weak_sender(&self) -> (w: WeakWorkerTaskSender<T>)
        ensures
            w.state() == self.state(),
    {
        WeakWorkerTaskSender { task_tx: downgrade_queue_sender(&self.task_tx), worker_state: Arc::clone(&self.worker_state) }
    }

    /// Aborts the worker unless its loop already ended.
    pub fn abort(self) {
        if !abort_handle_is_finished(&self.worker_handle) {
            self.worker_state.set_aborted();
            abort_by_handle(&self.worker_handle);
        }
    }

    /// Cancels the worker unless its loop already ended: the queue is let
    /// go, so the loop stops after the running task.
    pub fn cancel(self) {
        if !abort_handle_is_finished(&self.worker_handle) {
            self.worker_state.set_cancelled();
        }
    }

    /// The first half of a cancel followed by a join: everything up to the
    /// wait for the Tokio task that hands the state back.
    pub fn cancel_for_join(self) -> (j: JoinHandle<Result<S, WorkerJoinError>>)
        ensures
            j == self.state_task(),
    {
        if !abort_handle_is_finished(&self.worker_handle) {
            self.worker_state.set_cancelled();
        }
        let WorkerHandle { worker_handle, join_handle, worker_state, task_tx } = self;
        join_handle
    }

    /// The first half of a join.
    pub fn join_for_join(self) -> (j: JoinHandle<Result<S, WorkerJoinError>>)
        ensures
            j == self.state_task(),
    {
        if !abort_handle_is_finished(&self.worker_handle) {
            self.worker_state.set_joined();
        }
        let WorkerHandle { worker_handle, join_handle, worker_state, task_tx } = self;
        join_handle
    }
}

} // verus!
