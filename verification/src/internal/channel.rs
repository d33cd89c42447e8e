//! The Tokio and std items that the worker's machinery reaches, declared for
//! Verus, with the wrappers through which verified code calls them.
//!
//! None of these calls has a result that a contract could fix in advance:
//! whether a message is delivered, whether a task has finished, or what a
//! poll yields all depend on other threads and on the runtime.
use std::task::Context;
use tokio::sync::{mpsc, oneshot};
use tokio::task::{AbortHandle, JoinError, JoinHandle};
use vstd::prelude::*;

verus! {

#[verifier::external_type_specification]
#[verifier::external_body]
#[verifier::reject_recursive_types(T)]
pub struct ExUnboundedSender<T>(mpsc::UnboundedSender<T>);

#[verifier::external_type_specification]
#[verifier::external_body]
#[verifier::reject_recursive_types(T)]
pub struct ExWeakUnboundedSender<T>(mpsc::WeakUnboundedSender<T>);

#[verifier::external_type_specification]
#[verifier::external_body]
pub struct ExAbortHandle(AbortHandle);

#[verifier::external_type_specification]
#[verifier::external_body]
#[verifier::reject_recursive_types(T)]
pub struct ExOneshotSender<T>(oneshot::Sender<T>);

#[verifier::external_type_specification]
#[verifier::external_body]
#[verifier::reject_recursive_types(T)]
pub struct ExOneshotReceiver<T>(oneshot::Receiver<T>);

#[verifier::external_type_specification]
#[verifier::external_body]
pub struct ExRecvError(oneshot::error::RecvError);

#[verifier::external_type_specification]
#[verifier::external_body]
#[verifier::reject_recursive_types(T)]
pub struct ExJoinHandle<T>(JoinHandle<T>);

#[verifier::external_type_specification]
#[verifier::external_body]
pub struct ExJoinError(JoinError);

#[verifier::external_type_specification]
#[verifier::external_body]
#[verifier::reject_recursive_types(T)]
pub struct ExTokioMutex<T: ?Sized>(tokio::sync::Mutex<T>);

#[verifier::external_type_specification]
#[verifier::external_body]
pub struct ExContext<'a>(Context<'a>);

/// Calls `UnboundedSender::send`, which queues the message unless the
/// receiving half is closed. A refused message is handed back, as the
/// `SendError` that Tokio returns holds it; which of the two happens is not
/// claimed.
#[verifier::external_body]
pub(crate) fn send_to_queue<T>(tx: &mpsc::UnboundedSender<T>, message: T) -> (r: Result<(), T>)
    ensures
        r is Err ==> r->Err_0 == message,
{
    tx.send(message).map_err(|refused| refused.0)
}

/// Calls `<UnboundedSender as Clone>::clone`: another sender for the same queue.
#[verifier::external_body]
pub(crate) fn clone_queue_sender<T>(tx: &mpsc::UnboundedSender<T>) -> mpsc::UnboundedSender<T> {
    tx.clone()
}

/// Calls `UnboundedSender::downgrade`: a sender for the same queue that
/// does not keep the queue open.
#[verifier::external_body]
pub(crate) fn downgrade_queue_sender<T>(tx: &mpsc::UnboundedSender<T>) -> mpsc::WeakUnboundedSender<T> {
    tx.downgrade()
}

/// Calls `WeakUnboundedSender::upgrade`: a sender for the queue while some
/// other sender keeps it open, `None` once every sender is gone.
#[verifier::external_body]
pub(crate) fn upgrade_queue_sender<T>(tx: &mpsc::WeakUnboundedSender<T>) -> Option<mpsc::UnboundedSender<T>> {
    tx.upgrade()
}

/// Calls `<WeakUnboundedSender as Clone>::clone`.
#[verifier::external_body]
pub(crate) fn clone_weak_queue_sender<T>(tx: &mpsc::WeakUnboundedSender<T>) -> mpsc::WeakUnboundedSender<T> {
    tx.clone()
}

/// Calls `oneshot::channel`: a fresh sender and its receiver.
#[verifier::external_body]
pub(crate) fn new_oneshot<T>() -> (oneshot::Sender<T>, oneshot::Receiver<T>) {
    oneshot::channel()
}

/// Calls `oneshot::Sender::send`, which hands the value to the receiver
/// unless the receiver is gone. Returns whether it was handed over.
#[verifier::external_body]
pub(crate) fn send_oneshot<T>(tx: oneshot::Sender<T>, value: T) -> (delivered: bool) {
    tx.send(value).is_ok()
}

/// What polling a oneshot receiver gave: still waiting (the receiver is
/// handed back), the value, or a sender that was dropped without sending.
#[verifier::reject_recursive_types(T)]
pub enum OneshotPoll<T> {
    Pending(oneshot::Receiver<T>),
    Received(T),
    Closed,
}

/// Calls `<oneshot::Receiver as Future>::poll` once. The receiver is consumed
/// when the poll is ready, so a receiver is never polled after it completed
/// (which `Receiver::poll` refuses with a panic); a pending poll hands back
/// the receiver it was given.
#[verifier::external_body]
pub(crate) fn poll_oneshot<T>(mut rx: oneshot::Receiver<T>, cx: &mut Context<'_>) -> (p: OneshotPoll<T>)
    ensures
        p matches OneshotPoll::Pending(back) ==> back == rx,
{
    match std::future::Future::poll(std::pin::Pin::new(&mut rx), cx) {
        std::task::Poll::Pending => OneshotPoll::Pending(rx),
        std::task::Poll::Ready(Ok(value)) => OneshotPoll::Received(value),
        std::task::Poll::Ready(Err(_)) => OneshotPoll::Closed,
    }
}

/// Calls `JoinHandle::is_finished`: whether the worker's Tokio task has completed.
#[verifier::external_body]
pub(crate) fn task_is_finished<T>(handle: &JoinHandle<T>) -> bool {
    handle.is_finished()
}

/// Calls `JoinHandle::abort`, which asks the runtime to cancel the worker's Tokio task.
#[verifier::external_body]
pub(crate) fn abort_task<T>(handle: &JoinHandle<T>) {
    handle.abort()
}

/// Calls `AbortHandle::is_finished`: whether the task has completed.
#[verifier::external_body]
pub(crate) fn abort_handle_is_finished(handle: &AbortHandle) -> bool {
    handle.is_finished()
}

/// Calls `AbortHandle::abort`, which asks the runtime to cancel the task.
#[verifier::external_body]
pub(crate) fn abort_by_handle(handle: &AbortHandle) {
    handle.abort()
}

/// Evidence that a worker's Tokio task was asked to abort; only
/// `request_abort` makes one, right after asking.
#[verifier::reject_recursive_types(T)]
pub struct AbortRequested<T> {
    handle: Ghost<JoinHandle<T>>,
}

impl<T> AbortRequested<T> {
    /// The Tokio task that was asked to abort.
    pub closed spec fn handle(&self) -> JoinHandle<T> {
        self.handle@
    }
}

/// Asks the runtime to cancel the Tokio task behind `handle`.
pub fn request_abort<T>(handle: &JoinHandle<T>) -> (r: AbortRequested<T>)
    ensures
        r.handle() == *handle,
{
    abort_task(handle);
    AbortRequested { handle: Ghost(*handle) }
}

/// What `JoinHandle::is_finished` answered for a Tokio task; only
/// `check_finished` makes one.
#[verifier::reject_recursive_types(T)]
pub struct FinishCheck<T> {
    finished: bool,
    handle: Ghost<JoinHandle<T>>,
}

impl<T> FinishCheck<T> {
    /// The Tokio task that was asked.
    pub closed spec fn handle(&self) -> JoinHandle<T> {
        self.handle@
    }

    /// Whether it had finished.
    pub closed spec fn finished_spec(&self) -> bool {
        self.finished
    }

    pub fn finished(&self) -> (b: bool)
        ensures
            b == self.finished_spec(),
    {
        self.finished
    }
}

/// Asks whether the Tokio task behind `handle` has completed.
pub fn check_finished<T>(handle: &JoinHandle<T>) -> (r: FinishCheck<T>)
    ensures
        r.handle() == *handle,
{
    FinishCheck { finished: task_is_finished(handle), handle: Ghost(*handle) }
}

/// Evidence that a value was handed to a oneshot sender; only `deliver`
/// makes one, right after handing it over.
#[verifier::reject_recursive_types(T)]
pub struct Delivery<T> {
    value: Ghost<T>,
    channel: Ghost<oneshot::Sender<T>>,
}

impl<T> Delivery<T> {
    /// The value handed over.
    pub closed spec fn value(&self) -> T {
        self.value@
    }

    /// The sender it was handed to.
    pub closed spec fn channel(&self) -> oneshot::Sender<T> {
        self.channel@
    }
}

/// Hands `value` to the receiver of `tx` (a receiver that is gone does not
/// matter).
pub fn deliver<T>(tx: oneshot::Sender<T>, value: T) -> (d: Delivery<T>)
    ensures
        d.value() == value,
        d.channel() == tx,
{
    let ghost v = value;
    let ghost c = tx;
    let _ = send_oneshot(tx, value);
    Delivery { value: Ghost(v), channel: Ghost(c) }
}

} // verus!
