use super::channel::{deliver, new_oneshot, poll_oneshot, Delivery, OneshotPoll};
use super::once_take::OnceTake;
use super::panic_payload::PanicPayload;
use super::worker::{PanicRecord, WorkerFlagSnapshot, WorkerStatus};
use std::sync::Arc;
use std::task::Context;
use tokio::sync::oneshot;
use vstd::prelude::*;

verus! {

/// A task as it travels through the worker's queue: the job to run on the
/// state (`J`) together with the sender that reports the job's panic to the
/// task's handle. A cancellable task shares its cell with its canceller,
/// and the first of the worker and the canceller to take it out wins.
#[verifier::reject_recursive_types(J)]
#[verifier::reject_recursive_types(B)]
pub struct Task<J, B> {
    repr: TaskRepr<J, B>,
}

#[verifier::reject_recursive_types(J)]
#[verifier::reject_recursive_types(B)]
enum TaskRepr<J, B> {
    Uncancellable((J, TaskPanicSender<B>)),
    Cancellable(Arc<OnceTake<(J, TaskPanicSender<B>)>>),
}

impl<J, B> Task<J, B> {
    /// Whether the task can be cancelled through a shared cell.
    pub closed spec fn is_cancellable(&self) -> bool {
        self.repr is Cancellable
    }

    /// The job and panic sender of an uncancellable task.
    pub closed spec fn content(&self) -> (J, TaskPanicSender<B>) {
        self.repr->Uncancellable_0
    }

    /// The cell of a cancellable task.
    pub closed spec fn cell(&self) -> Arc<OnceTake<(J, TaskPanicSender<B>)>> {
        self.repr->Cancellable_0
    }

    fn new_uncancellable(task: (J, TaskPanicSender<B>)) -> (t: Self)
        ensures
            !t.is_cancellable(),
            t.content() == task,
    {
        Task { repr: TaskRepr::Uncancellable(task) }
    }

    fn new_cancellable(task: Arc<OnceTake<(J, TaskPanicSender<B>)>>) -> (t: Self)
        ensures
            t.is_cancellable(),
            t.cell() == task,
    {
        Task { repr: TaskRepr::Cancellable(task) }
    }

    /// Takes the job out of the task: always for an uncancellable task; for a
    /// cancellable one only if its canceller did not take it first.
    pub fn take(self) -> (r: Option<(J, TaskPanicSender<B>)>)
        ensures
            !self.is_cancellable() ==> r == Some(self.content()),
    {
        match self.repr {
            TaskRepr::Uncancellable(task) => Some(task),
            TaskRepr::Cancellable(task) => task.take(),
        }
    }
}

/// Reports the panic of a job to its task's handle.
#[verifier::reject_recursive_types(B)]
pub struct TaskPanicSender<B> {
    tx: oneshot::Sender<PanicPayload<B>>,
}

impl<B> TaskPanicSender<B> {
    /// The channel on which the panic goes to the task's handle.
    pub closed spec fn channel(&self) -> oneshot::Sender<PanicPayload<B>> {
        self.tx
    }

    fn new(tx: oneshot::Sender<PanicPayload<B>>) -> (s: Self)
        ensures
            s.channel() == tx,
    {
        TaskPanicSender { tx }
    }

    /// Hands the panic to the task's handle, on this sender's channel; a
    /// handle that is gone does not matter.
    pub fn send(self, panic: PanicPayload<B>) -> (d: Delivery<PanicPayload<B>>)
        ensures
            d.value() == panic,
            d.channel() == self.channel(),
    {
        deliver(self.tx, panic)
    }
}

/// The message of a panic as the worker's status records it.
pub fn recorded_panic_msg<B>(panic: &PanicPayload<B>) -> (m: Option<Arc<String>>)
    ensures
        m is Some == panic.message() is Some,
        m is Some ==> (*m->Some_0)@ == panic.message()->Some_0,
{
    match panic.as_str() {
        Some(msg) => Some(Arc::new(msg.to_owned())),
        None => None,
    }
}

/// Reports the panic of a job that ended the worker's loop (the loop's
/// `ReportPanicAndStop`): records its message in the worker's status
/// (`recorded_panic_msg`), then hands the panic to the task's handle.
///
/// Returns what was recorded and what was delivered: the panic is recorded
/// on `status` with its own message, the phase becomes `TaskPanicked`, and
/// the payload goes on the task's own panic channel.
pub fn report_task_panic<B>(status: &WorkerStatus, panic: PanicPayload<B>, panic_sender: TaskPanicSender<B>) -> (r: (
    PanicRecord,
    Delivery<PanicPayload<B>>,
))
    ensures
        r.0.status() == *status,
        r.0.msg() is Some == panic.message() is Some,
        r.0.msg() is Some ==> (*r.0.msg()->Some_0)@ == panic.message()->Some_0,
        r.0.next().flag == WorkerFlagSnapshot::TaskPanicked,
        r.1.value() == panic,
        r.1.channel() == panic_sender.channel(),
{
    let recorded = status.set_task_panicked(recorded_panic_msg(&panic));
    let delivered = panic_sender.send(panic);
    (recorded, delivered)
}

/// What one poll of a task's result gave.
pub enum ReceivePoll<R, B> {
    /// Neither the result nor a panic has come, and not both channels closed.
    Pending,
    /// The job returned this value.
    Value(R),
    /// The job panicked.
    Panicked(PanicPayload<B>),
    /// Both channels closed without a result or a panic: the task was dropped
    /// without running to its end.
    Vanished,
}

/// The receiving end of a task: the job's result, or its panic.
/// A receiver that has given its value (or found its sender gone) is dropped.
#[verifier::reject_recursive_types(R)]
#[verifier::reject_recursive_types(B)]
pub struct TaskResultReceiver<R, B> {
    result_rx: Option<oneshot::Receiver<R>>,
    panic_rx: Option<oneshot::Receiver<PanicPayload<B>>>,
    panic_partner: Ghost<oneshot::Sender<PanicPayload<B>>>,
}

impl<R, B> TaskResultReceiver<R, B> {
    /// Whether the panic channel has been settled (a panic came or its sender is gone).
    pub closed spec fn panic_ready(&self) -> bool {
        self.panic_rx is None
    }

    /// Whether the result channel has been settled.
    pub closed spec fn result_ready(&self) -> bool {
        self.result_rx is None
    }

    /// The sender that was made together with this receiver's panic channel:
    /// what it delivers, this receiver's polls find.
    pub closed spec fn panic_partner(&self) -> oneshot::Sender<PanicPayload<B>> {
        self.panic_partner@
    }

    fn new(
        result_rx: oneshot::Receiver<R>,
        panic_rx: oneshot::Receiver<PanicPayload<B>>,
        Ghost(panic_partner): Ghost<oneshot::Sender<PanicPayload<B>>>,
    ) -> (r: Self)
        ensures
            !r.panic_ready(),
            !r.result_ready(),
            r.panic_partner() == panic_partner,
    {
        TaskResultReceiver { result_rx: Some(result_rx), panic_rx: Some(panic_rx), panic_partner: Ghost(panic_partner) }
    }

    /// Polls the panic channel first, then the result channel (which is not
    /// polled when a panic came), and decides with `decide_receive` on what
    /// the two polls found. A channel that settled is never polled again.
    pub fn poll(&mut self, cx: &mut Context<'_>) -> (r: ReceivePoll<R, B>)
        ensures
            exists|ps: ChannelStep<PanicPayload<B>>, rs: ChannelStep<R>|
                {
                    &&& r == #[trigger] receive_decision(ps, rs)
                    &&& (ps is Settled) == old(self).panic_ready()
                    &&& final(self).panic_ready() == !(ps is Open)
                    &&& (rs is Settled) == old(self).result_ready()
                    &&& final(self).result_ready() == !(rs is Open)
                },
    {
        let panic_step = poll_channel(&mut self.panic_rx, cx);
        let result_step = match &panic_step {
            ChannelStep::Received(_) => {
                if self.result_rx.is_some() {
                    ChannelStep::Open
                } else {
                    ChannelStep::Settled
                }
            },
            _ => poll_channel(&mut self.result_rx, cx),
        };
        let ghost ps = panic_step;
        let ghost rs = result_step;
        let r = decide_receive(panic_step, result_step);
        assert(r == receive_decision(ps, rs));
        r
    }
}

/// What a poll of a receiver found: a pending poll leaves the receiver in
/// its place (`Open`); a value or a closed sender leaves the place empty.
pub fn channel_step<T>(polled: OneshotPoll<T>, place: &mut Option<oneshot::Receiver<T>>) -> (s: ChannelStep<T>)
    requires
        *old(place) is None,
    ensures
        polled matches OneshotPoll::Pending(rx) ==> s is Open && *final(place) == Some(rx),
        polled matches OneshotPoll::Received(v) ==> s == ChannelStep::Received(v) && *final(place) is None,
        polled is Closed ==> s is Closed && *final(place) is None,
{
    match polled {
        OneshotPoll::Pending(rx) => {
            *place = Some(rx);
            ChannelStep::Open
        },
        OneshotPoll::Received(value) => ChannelStep::Received(value),
        OneshotPoll::Closed => ChannelStep::Closed,
    }
}

/// Polls the receiver in `place` once, unless an earlier poll settled it
/// (`Settled`). The place stays filled exactly while the channel is open.
pub fn poll_channel<T>(place: &mut Option<oneshot::Receiver<T>>, cx: &mut Context<'_>) -> (s: ChannelStep<T>)
    ensures
        (s is Settled) == (*old(place) is None),
        (*final(place) is None) == !(s is Open),
        s is Open ==> *final(place) == *old(place),
{
    match place.take() {
        Some(rx) => channel_step(poll_oneshot(rx, cx), place),
        None => ChannelStep::Settled,
    }
}

/// What one poll found on one of a task's channels: still open (polled and
/// still pending, or left unpolled), a value that came, a sender dropped
/// without sending, or a channel that an earlier poll settled.
pub enum ChannelStep<T> {
    Open,
    Received(T),
    Closed,
    Settled,
}

impl<T> ChannelStep<T> {
    /// Whether the channel has ended without handing a value over now.
    pub open spec fn ended_empty(self) -> bool {
        self is Closed || self is Settled
    }

    fn is_ended_empty(&self) -> (b: bool)
        ensures
            b == self.ended_empty(),
    {
        match self {
            ChannelStep::Closed | ChannelStep::Settled => true,
            _ => false,
        }
    }
}

/// What a poll of a task's result yields, given what it found on the panic
/// channel and on the result channel: a panic wins, then a value; both
/// channels ended without one means the task vanished; else keep waiting.
pub open spec fn receive_decision<R, B>(panic: ChannelStep<PanicPayload<B>>, result: ChannelStep<R>) -> ReceivePoll<R, B> {
    match panic {
        ChannelStep::Received(p) => ReceivePoll::Panicked(p),
        _ => match result {
            ChannelStep::Received(v) => ReceivePoll::Value(v),
            _ => if panic.ended_empty() && result.ended_empty() {
                ReceivePoll::Vanished
            } else {
                ReceivePoll::Pending
            },
        },
    }
}

/// Decides what a poll of a task's result yields from what it found on the
/// two channels.
pub fn decide_receive<R, B>(panic: ChannelStep<PanicPayload<B>>, result: ChannelStep<R>) -> (r: ReceivePoll<R, B>)
    ensures
        r == receive_decision(panic, result),
{
    let vanished = panic.is_ended_empty() && result.is_ended_empty();
    match panic {
        ChannelStep::Received(p) => ReceivePoll::Panicked(p),
        _ => match result {
            ChannelStep::Received(v) => ReceivePoll::Value(v),
            _ => if vanished {
                ReceivePoll::Vanished
            } else {
                ReceivePoll::Pending
            },
        },
    }
}

/// Makes a cancellable task from a job and the receiver of the job's result.
/// Returns the task, its result receiver, and the cell that the task shares
/// with whoever may cancel it (taking the job out of the cell cancels it).
pub fn build_cancellable_task<J, R, B>(task: J, result_rx: oneshot::Receiver<R>) -> (r: (
    Task<J, B>,
    TaskResultReceiver<R, B>,
    Arc<OnceTake<(J, TaskPanicSender<B>)>>,
))
    ensures
        r.0.is_cancellable(),
        r.0.cell() == r.2,
        !r.1.panic_ready() && !r.1.result_ready(),
{
    let (panic_tx, panic_rx) = new_oneshot();
    let ghost partner = panic_tx;
    let panic_sender = TaskPanicSender::new(panic_tx);
    let cell = Arc::new(OnceTake::new((task, panic_sender)));
    let result = TaskResultReceiver::new(result_rx, panic_rx, Ghost(partner));
    (Task::new_cancellable(Arc::clone(&cell)), result, cell)
}

/// Makes a task that cannot be cancelled from a job and the receiver of the
/// job's result.
pub fn build_uncancellable_task<J, R, B>(task: J, result_rx: oneshot::Receiver<R>) -> (r: (
    Task<J, B>,
    TaskResultReceiver<R, B>,
))
    ensures
        !r.0.is_cancellable(),
        r.0.content().0 == task,
        r.0.content().1.channel() == r.1.panic_partner(),
        !r.1.panic_ready() && !r.1.result_ready(),
{
    let (panic_tx, panic_rx) = new_oneshot();
    let ghost partner = panic_tx;
    let panic_sender = TaskPanicSender::new(panic_tx);
    let result = TaskResultReceiver::new(result_rx, panic_rx, Ghost(partner));
    (Task::new_uncancellable((task, panic_sender)), result)
}

} // verus!
