pub mod handle;
pub mod join_error;
pub mod send_error;
pub mod state;
pub mod status;

use super::channel::{
    check_finished, clone_queue_sender, request_abort, send_to_queue, AbortRequested, FinishCheck,
};
pub use status::{read_from, PanicRecord, StatusMove, StatusRead};
use super::lock::{guarded, lock, new_mutex, replace_guarded};
use std::sync::{Arc, Mutex as StdMutex};
use tokio::sync::{mpsc, Mutex};
use tokio::task::JoinHandle;
use vstd::prelude::*;

verus! {

/// The phase of a worker as seen by its handles, tasks and spawners.
///
/// `Other` is the phase of a worker that runs (or waits for) tasks;
/// the three other phases are final for the purpose of accepting new work.
#[derive(Clone, Copy, Debug, PartialEq, Eq, Structural)]
pub enum WorkerFlagSnapshot {
    AbortStarted,
    CancelStarted,
    TaskPanicked,
    Other,
}

/// What a worker's shared status holds, as a value: its phase and, once a
/// task has panicked, the panic message of that task (`Some(None)` when the
/// panic carried no message; `None` while no message was ever recorded).
pub struct StatusModel {
    pub flag: WorkerFlagSnapshot,
    pub task_panic_msg: Option<Option<Arc<String>>>,
}

impl StatusModel {
    /// A task panic is only ever published together with its message:
    /// whoever sees the `TaskPanicked` phase also finds the message recorded.
    pub open spec fn wf(self) -> bool {
        self.flag == WorkerFlagSnapshot::TaskPanicked ==> self.task_panic_msg is Some
    }

    /// The panic message that is recorded, if any.
    pub open spec fn recorded_msg(self) -> Option<Arc<String>> {
        match self.task_panic_msg {
            Some(m) => m,
            None => None,
        }
    }
}

/// The move from `Other` to `target` (an abort or a cancel starting).
pub open spec fn start_transition(c: StatusModel, target: WorkerFlagSnapshot) -> (StatusModel, bool) {
    if c.flag == WorkerFlagSnapshot::Other {
        (StatusModel { flag: target, task_panic_msg: c.task_panic_msg }, true)
    } else {
        (c, false)
    }
}

/// The move that records a task panic.
pub open spec fn panic_transition(c: StatusModel, msg: Option<Arc<String>>) -> StatusModel {
    StatusModel {
        flag: WorkerFlagSnapshot::TaskPanicked,
        task_panic_msg: if c.task_panic_msg is Some { c.task_panic_msg } else { Some(msg) },
    }
}

/// Once a task has panicked the phase stays `TaskPanicked`: no abort or
/// cancel can start any more, and a further panic leaves the phase as it is.
pub proof fn law_task_panic_is_final(c: StatusModel, target: WorkerFlagSnapshot, msg: Option<Arc<String>>)
    requires
        c.flag == WorkerFlagSnapshot::TaskPanicked,
    ensures
        start_transition(c, target) == (c, false),
        panic_transition(c, msg).flag == WorkerFlagSnapshot::TaskPanicked,
{
}

/// An abort or a cancel starts exactly when the worker is in the `Other` phase.
pub proof fn law_start_only_from_other(c: StatusModel, target: WorkerFlagSnapshot)
    ensures
        start_transition(c, target).1 == (c.flag == WorkerFlagSnapshot::Other),
{
}

/// Abort and cancel exclude each other: once one has started, the other
/// cannot start.
pub proof fn law_abort_and_cancel_exclude_each_other(c: StatusModel)
    ensures
        start_transition(c, WorkerFlagSnapshot::AbortStarted).1 ==> !start_transition(
            start_transition(c, WorkerFlagSnapshot::AbortStarted).0,
            WorkerFlagSnapshot::CancelStarted,
        ).1,
        start_transition(c, WorkerFlagSnapshot::CancelStarted).1 ==> !start_transition(
            start_transition(c, WorkerFlagSnapshot::CancelStarted).0,
            WorkerFlagSnapshot::AbortStarted,
        ).1,
{
}

/// The first panic message recorded is the one kept: no later move changes it.
pub proof fn law_panic_message_is_recorded_once(
    c: StatusModel,
    target: WorkerFlagSnapshot,
    msg: Option<Arc<String>>,
)
    requires
        c.task_panic_msg is Some,
    ensures
        panic_transition(c, msg).task_panic_msg == c.task_panic_msg,
        start_transition(c, target).0.task_panic_msg == c.task_panic_msg,
{
}

/// Every move keeps the status well formed, so a worker never shows the
/// `TaskPanicked` phase without its panic message.
pub proof fn law_moves_keep_status_well_formed(
    c: StatusModel,
    target: WorkerFlagSnapshot,
    msg: Option<Arc<String>>,
)
    requires
        c.wf(),
        target == WorkerFlagSnapshot::AbortStarted || target == WorkerFlagSnapshot::CancelStarted,
    ensures
        start_transition(c, target).0.wf(),
        panic_transition(c, msg).wf(),
{
}

/// A worker's status as it is stored: always well formed.
pub struct StatusCell {
    flag: WorkerFlagSnapshot,
    task_panic_msg: Option<Option<Arc<String>>>,
}

impl View for StatusCell {
    type V = StatusModel;

    closed spec fn view(&self) -> StatusModel {
        StatusModel { flag: self.flag, task_panic_msg: self.task_panic_msg }
    }
}

impl StatusCell {
    #[verifier::type_invariant]
    spec fn inv(self) -> bool {
        self@.wf()
    }

    /// The status of a worker that has just been spawned.
    pub fn initial() -> (c: StatusCell)
        ensures
            c@.flag == WorkerFlagSnapshot::Other,
            c@.task_panic_msg is None,
    {
        StatusCell { flag: WorkerFlagSnapshot::Other, task_panic_msg: None }
    }

    /// Moves from `Other` to `target`; in any other phase nothing changes.
    /// Returns the new status and whether the move happened.
    pub fn try_start(&self, target: WorkerFlagSnapshot) -> (r: (StatusCell, bool))
        requires
            target == WorkerFlagSnapshot::AbortStarted || target == WorkerFlagSnapshot::CancelStarted,
        ensures
            (r.0@, r.1) == start_transition(self@, target),
    {
        proof {
            use_type_invariant(self);
        }
        match self.flag {
            WorkerFlagSnapshot::Other => (StatusCell { flag: target, task_panic_msg: self.message_copy() }, true),
            _ => (self.duplicate(), false),
        }
    }

    /// Records that a task panicked: the message is kept only if none was
    /// recorded before, and the phase becomes `TaskPanicked` whatever it was.
    pub fn mark_task_panicked(&self, msg: Option<Arc<String>>) -> (c: StatusCell)
        ensures
            c@ == panic_transition(self@, msg),
    {
        let task_panic_msg = match self.message_copy() {
            Some(m) => Some(m),
            None => Some(msg),
        };
        StatusCell { flag: WorkerFlagSnapshot::TaskPanicked, task_panic_msg }
    }

    fn message_copy(&self) -> (m: Option<Option<Arc<String>>>)
        ensures
            m == self@.task_panic_msg,
    {
        match &self.task_panic_msg {
            Some(Some(msg)) => Some(Some(Arc::clone(msg))),
            Some(None) => Some(None),
            None => None,
        }
    }

    /// A copy of this status (the message is shared, not copied).
    pub fn duplicate(&self) -> (c: StatusCell)
        ensures
            c@ == self@,
            c@.wf(),
    {
        proof {
            use_type_invariant(self);
        }
        StatusCell { flag: self.flag, task_panic_msg: self.message_copy() }
    }

    /// The phase.
    pub fn flag(&self) -> (f: WorkerFlagSnapshot)
        ensures
            f == self@.flag,
    {
        self.flag
    }

    /// The recorded panic message, shared.
    pub fn panic_msg(&self) -> (m: Option<Arc<String>>)
        ensures
            m == self@.recorded_msg(),
    {
        match &self.task_panic_msg {
            Some(Some(msg)) => Some(Arc::clone(msg)),
            _ => None,
        }
    }
}

/// The status that a worker shares with its handle, its spawners and its tasks.
pub struct WorkerStatus {
    cell: StdMutex<StatusCell>,
}

impl WorkerStatus {
    /// The status of a worker that has just been spawned (phase `Other`, no message).
    pub fn new() -> (s: WorkerStatus) {
        WorkerStatus { cell: new_mutex(StatusCell::initial()) }
    }

    /// Reads phase and message together, from one consistent state.
    /// The state read is well formed: a `TaskPanicked` phase comes with its message.
    pub fn snapshot(&self) -> (c: StatusCell)
        ensures
            c@.wf(),
            read_from(c, *self),
    {
        let rd = self.read();
        let ghost seen = rd;
        let c = rd.into_cell();
        assert(seen.status() == *self && seen.cell() == c);
        c
    }

    /// The panic message of the task that panicked, if one panicked with a message.
    ///
    /// Once the phase `TaskPanicked` has been observed, the message (if the panic
    /// had one) is always available here.
    pub fn task_panic_msg(&self) -> (m: Option<Arc<String>>)
        ensures
            exists|c: StatusCell| read_from(c, *self) && m == c@.recorded_msg(),
    {
        let c = self.snapshot();
        c.panic_msg()
    }

    /// The current phase of the worker.
    pub fn flag(&self) -> (f: WorkerFlagSnapshot)
        ensures
            exists|c: StatusCell| read_from(c, *self) && f == c@.flag,
    {
        let c = self.snapshot();
        c.flag()
    }

    fn try_start(&self, target: WorkerFlagSnapshot) -> (started: bool)
        requires
            target == WorkerFlagSnapshot::AbortStarted || target == WorkerFlagSnapshot::CancelStarted,
    {
        self.try_move(target).started()
    }

    /// Marks the start of an abort, unless the worker has already been
    /// cancelled, aborted or has seen a task panic. Returns whether it did.
    pub fn try_set_abort_started(&self) -> (started: bool) {
        self.try_start(WorkerFlagSnapshot::AbortStarted)
    }

    /// Marks the start of a cancel, unless the worker has already been
    /// aborted, cancelled or has seen a task panic. Returns whether it did.
    pub fn try_set_cancel_started(&self) -> (started: bool) {
        self.try_start(WorkerFlagSnapshot::CancelStarted)
    }

    /// Records a task panic. This overrides an abort or a cancel that had started;
    /// a message already recorded by an earlier call is kept.
    /// Returns what it found and what it recorded.
    pub fn set_task_panicked(&self, msg: Option<Arc<String>>) -> (p: PanicRecord)
        ensures
            p.status() == *self,
            p.msg() == msg,
            p.next().flag == WorkerFlagSnapshot::TaskPanicked,
    {
        self.record_panic(msg)
    }
}

/// Why a worker ended without handing its state back cleanly. Each variant
/// carries the state as the worker left it, which may break its invariants.
pub enum WorkerJoinError<S> {
    AnyTaskPanic { panic_msg: Option<Arc<String>>, poisoned_state: S },
    RuntimeShutdown { poisoned_state: S },
    WorkerAborted { poisoned_state: S },
}

impl<S> WorkerJoinError<S> {
    /// The state that the error carries.
    pub open spec fn state_of(self) -> S {
        match self {
            WorkerJoinError::AnyTaskPanic { poisoned_state, .. } => poisoned_state,
            WorkerJoinError::RuntimeShutdown { poisoned_state } => poisoned_state,
            WorkerJoinError::WorkerAborted { poisoned_state } => poisoned_state,
        }
    }
}

/// Why a task could not be queued on a worker.
pub enum WorkerSendError {
    PrevTaskPanic { panic_msg: Option<Arc<String>> },
    RuntimeShutdown,
    TaskSenderUnavailable,
}

/// How the worker's Tokio task ended, as its join handle reports it:
/// `Completed` for `Ok(Ok(()))`, `Stopped` for `Ok(Err(()))` (the loop gave up)
/// and `Lost` for a join error: the handle aborted the task, or the runtime
/// shut down under it.
#[derive(Clone, Copy, Debug, PartialEq, Eq, Structural)]
pub enum WorkerRunResult {
    Completed,
    Stopped,
    Lost,
}

/// What joining a worker yields, given how its Tokio task ended, the status
/// it left behind and the state taken back from it.
pub open spec fn join_result_spec<S>(run: WorkerRunResult, status: StatusModel, state: S) -> Result<S, WorkerJoinError<S>> {
    match run {
        WorkerRunResult::Completed => Ok(state),
        WorkerRunResult::Stopped => match status.flag {
            WorkerFlagSnapshot::AbortStarted => Err(WorkerJoinError::WorkerAborted { poisoned_state: state }),
            WorkerFlagSnapshot::TaskPanicked => Err(
                WorkerJoinError::AnyTaskPanic { panic_msg: status.recorded_msg(), poisoned_state: state },
            ),
            _ => Err(WorkerJoinError::RuntimeShutdown { poisoned_state: state }),
        },
        WorkerRunResult::Lost => match status.flag {
            WorkerFlagSnapshot::AbortStarted => Err(WorkerJoinError::WorkerAborted { poisoned_state: state }),
            _ => Err(WorkerJoinError::RuntimeShutdown { poisoned_state: state }),
        },
    }
}

/// What an abort followed by a join yields, given what the join gave: a
/// worker that still ended cleanly is reported as aborted, with its state.
pub open spec fn abort_join_spec<S>(joined: Result<S, WorkerJoinError<S>>) -> WorkerJoinError<S> {
    match joined {
        Ok(state) => WorkerJoinError::WorkerAborted { poisoned_state: state },
        Err(err) => err,
    }
}

/// A worker poisons its state as aborted exactly when an abort of it had
/// started and it did not end cleanly; and once an abort started, an abort
/// followed by a join always reports the worker as aborted, however its
/// Tokio task ended.
pub proof fn law_aborted_exactly_when_abort_started<S>(run: WorkerRunResult, status: StatusModel, state: S)
    ensures
        (join_result_spec(run, status, state) matches Err(WorkerJoinError::WorkerAborted { .. })) == (
        run != WorkerRunResult::Completed && status.flag == WorkerFlagSnapshot::AbortStarted),
        status.flag == WorkerFlagSnapshot::AbortStarted ==> abort_join_spec(join_result_spec(run, status, state))
            == (WorkerJoinError::WorkerAborted { poisoned_state: state }),
{
}

/// Joining always hands the state back: as the result when the worker ran to
/// its end, else inside the error. It succeeds exactly when the worker's
/// Tokio task completed its loop cleanly.
pub proof fn law_join_keeps_state<S>(run: WorkerRunResult, status: StatusModel, state: S)
    ensures
        (join_result_spec(run, status, state) is Ok) == (run == WorkerRunResult::Completed),
        match join_result_spec(run, status, state) {
            Ok(s) => s == state,
            Err(e) => e.state_of() == state,
        },
{
}

/// A worker whose loop stopped after recording a task panic is joined as a
/// task panic, carrying the first panic message recorded (the message of
/// this panic when none was recorded before) and the state. This holds
/// whatever abort or cancel had started before the panic.
pub proof fn law_panic_stop_joins_as_task_panic<S>(c: StatusModel, msg: Option<Arc<String>>, state: S)
    ensures
        join_result_spec(WorkerRunResult::Stopped, panic_transition(c, msg), state) == Err::<S, WorkerJoinError<S>>(
            WorkerJoinError::AnyTaskPanic { panic_msg: panic_transition(c, msg).recorded_msg(), poisoned_state: state },
        ),
        c.task_panic_msg is None ==> panic_transition(c, msg).recorded_msg() == msg,
{
}

/// Decides what joining a worker yields. A cancel makes the worker stop
/// cleanly, so a loop that gave up in the `Other` or `CancelStarted` phase
/// can only have been stopped by the runtime shutting down; a Tokio task
/// lost after an abort started was aborted by its handle.
pub fn join_result<S>(run: WorkerRunResult, status: &StatusCell, state: S) -> (r: Result<S, WorkerJoinError<S>>)
    ensures
        r == join_result_spec(run, status@, state),
{
    match run {
        WorkerRunResult::Completed => Ok(state),
        WorkerRunResult::Stopped => match status.flag() {
            WorkerFlagSnapshot::AbortStarted => Err(WorkerJoinError::WorkerAborted { poisoned_state: state }),
            WorkerFlagSnapshot::TaskPanicked => Err(
                WorkerJoinError::AnyTaskPanic { panic_msg: status.panic_msg(), poisoned_state: state },
            ),
            WorkerFlagSnapshot::Other | WorkerFlagSnapshot::CancelStarted => Err(
                WorkerJoinError::RuntimeShutdown { poisoned_state: state },
            ),
        },
        WorkerRunResult::Lost => match status.flag() {
            WorkerFlagSnapshot::AbortStarted => Err(WorkerJoinError::WorkerAborted { poisoned_state: state }),
            _ => Err(WorkerJoinError::RuntimeShutdown { poisoned_state: state }),
        },
    }
}

/// What an abort followed by a join yields: a worker that still ended
/// cleanly is reported as aborted, with the state it returned.
pub fn abort_join_result<S>(joined: Result<S, WorkerJoinError<S>>) -> (e: WorkerJoinError<S>)
    ensures
        e == abort_join_spec(joined),
{
    match joined {
        Ok(state) => WorkerJoinError::WorkerAborted { poisoned_state: state },
        Err(err) => err,
    }
}

/// The error for a task that the queue refused, given the worker's status.
pub open spec fn send_error_spec(status: StatusModel) -> WorkerSendError {
    match status.flag {
        WorkerFlagSnapshot::AbortStarted => WorkerSendError::TaskSenderUnavailable,
        WorkerFlagSnapshot::CancelStarted => WorkerSendError::TaskSenderUnavailable,
        WorkerFlagSnapshot::TaskPanicked => WorkerSendError::PrevTaskPanic { panic_msg: status.recorded_msg() },
        WorkerFlagSnapshot::Other => WorkerSendError::RuntimeShutdown,
    }
}

/// Decides why a task was refused by the worker's queue: the queue closes
/// when the worker stops, so an abort or a cancel makes the sender
/// unavailable, a task panic is reported with its message, and a worker that
/// stopped in the `Other` phase was stopped by the runtime shutting down.
pub fn send_error(status: &StatusCell) -> (e: WorkerSendError)
    ensures
        e == send_error_spec(status@),
{
    match status.flag {
        WorkerFlagSnapshot::AbortStarted | WorkerFlagSnapshot::CancelStarted => WorkerSendError::TaskSenderUnavailable,
        WorkerFlagSnapshot::TaskPanicked => WorkerSendError::PrevTaskPanic { panic_msg: status.panic_msg() },
        WorkerFlagSnapshot::Other => WorkerSendError::RuntimeShutdown,
    }
}

/// What an offer of a task to a worker's queue came to: the sender had
/// been closed (the task was not offered), the queue took it, or the queue
/// refused it.
#[derive(Clone, Copy, Debug, PartialEq, Eq, Structural)]
pub enum Offer {
    SenderClosed,
    Queued,
    Refused,
}

/// What an offer came to, given `None` for a closed sender and otherwise
/// the queue's answer (a refused task handed back).
pub open spec fn offer_spec<T>(offered: Option<Result<(), T>>) -> Offer {
    match offered {
        None => Offer::SenderClosed,
        Some(Ok(_)) => Offer::Queued,
        Some(Err(_)) => Offer::Refused,
    }
}

/// Reads what an offer came to; a refused task is dropped here, after any
/// lock taken for the offer was let go.
pub fn offer_of<T>(offered: Option<Result<(), T>>) -> (o: Offer)
    ensures
        o == offer_spec(offered),
{
    match offered {
        None => Offer::SenderClosed,
        Some(Ok(())) => Offer::Queued,
        Some(Err(_refused)) => Offer::Refused,
    }
}

/// Whether an outcome is the one of that offer.
pub open spec fn outcome_of_offer(offer: Offer, outcome: SendOutcome) -> bool {
    match offer {
        Offer::SenderClosed => outcome is SenderClosed,
        Offer::Queued => outcome is Queued,
        Offer::Refused => outcome is Refused,
    }
}

/// Whether a refusal in the outcome carries what a read of `status` found.
pub open spec fn outcome_read_from(outcome: SendOutcome, status: WorkerStatus) -> bool {
    outcome matches SendOutcome::Refused(c) ==> read_from(c, status)
}

/// The outcome of an offer: a refusal is explained by the worker's status,
/// read now.
pub fn send_outcome(offer: Offer, status: &WorkerStatus) -> (o: SendOutcome)
    ensures
        outcome_of_offer(offer, o),
        outcome_read_from(o, *status),
{
    match offer {
        Offer::SenderClosed => SendOutcome::SenderClosed,
        Offer::Queued => SendOutcome::Queued,
        Offer::Refused => SendOutcome::Refused(status.snapshot()),
    }
}

/// What became of a task handed to a worker's queue: the sender had been
/// closed (the task was not offered), the queue took it, or the queue
/// refused it; a refusal carries the worker's status as read afterwards.
pub enum SendOutcome {
    SenderClosed,
    Queued,
    Refused(StatusCell),
}

/// The result of handing a task to a worker, given what became of it.
pub open spec fn send_result_spec(outcome: SendOutcome, status: Arc<WorkerStatus>) -> Result<
    Arc<WorkerStatus>,
    WorkerSendError,
> {
    match outcome {
        SendOutcome::SenderClosed => Err(WorkerSendError::TaskSenderUnavailable),
        SendOutcome::Queued => Ok(status),
        SendOutcome::Refused(c) => Err(send_error_spec(c@)),
    }
}

/// Decides the result of handing a task to a worker: a closed sender is
/// unavailable, a queued task yields the worker's status, and a refusal is
/// explained by the worker's phase (`send_error`).
pub fn send_result(outcome: SendOutcome, status: Arc<WorkerStatus>) -> (r: Result<Arc<WorkerStatus>, WorkerSendError>)
    ensures
        r == send_result_spec(outcome, status),
{
    match outcome {
        SendOutcome::SenderClosed => Err(WorkerSendError::TaskSenderUnavailable),
        SendOutcome::Queued => Ok(status),
        SendOutcome::Refused(c) => Err(send_error(&c)),
    }
}

/// Whether a spawner reports a task panic, given the worker's phase:
/// `None` once the worker is being aborted or cancelled.
pub open spec fn spawner_panicked_spec(flag: WorkerFlagSnapshot) -> Option<bool> {
    match flag {
        WorkerFlagSnapshot::AbortStarted => None,
        WorkerFlagSnapshot::CancelStarted => None,
        WorkerFlagSnapshot::TaskPanicked => Some(true),
        WorkerFlagSnapshot::Other => Some(false),
    }
}

/// Whether a worker's handle reports a task panic, given the worker's phase.
pub fn handle_panicked(flag: WorkerFlagSnapshot) -> (r: bool)
    ensures
        r == (flag == WorkerFlagSnapshot::TaskPanicked),
{
    match flag {
        WorkerFlagSnapshot::TaskPanicked => true,
        _ => false,
    }
}

/// What a spawner reports agrees with its worker's handle whenever it
/// reports anything (it reports nothing only once an abort or a cancel
/// started), and once it reports a task panic it keeps doing so through
/// every later move of the worker's status.
pub proof fn law_spawner_panic_report_is_final(c: StatusModel, target: WorkerFlagSnapshot, msg: Option<Arc<String>>)
    requires
        target == WorkerFlagSnapshot::AbortStarted || target == WorkerFlagSnapshot::CancelStarted,
    ensures
        spawner_panicked_spec(c.flag) is Some ==> spawner_panicked_spec(c.flag) == Some(
            c.flag == WorkerFlagSnapshot::TaskPanicked,
        ),
        (spawner_panicked_spec(c.flag) is None) == (c.flag == WorkerFlagSnapshot::AbortStarted || c.flag
            == WorkerFlagSnapshot::CancelStarted),
        spawner_panicked_spec(c.flag) == Some(true) ==> spawner_panicked_spec(start_transition(c, target).0.flag)
            == Some(true),
        spawner_panicked_spec(panic_transition(c, msg).flag) == Some(true),
{
}

pub fn spawner_panicked(flag: WorkerFlagSnapshot) -> (r: Option<bool>)
    ensures
        r == spawner_panicked_spec(flag),
{
    match flag {
        WorkerFlagSnapshot::AbortStarted => None,
        WorkerFlagSnapshot::CancelStarted => None,
        WorkerFlagSnapshot::TaskPanicked => Some(true),
        WorkerFlagSnapshot::Other => Some(false),
    }
}

/// What every open task sender shares: the worker's queue.
#[verifier::reject_recursive_types(T)]
pub struct WorkerTaskSenderCtx<T> {
    task_tx: mpsc::UnboundedSender<T>,
}

/// The cell through which task senders reach the worker; empty once they were closed.
pub type SharedSenderCtx<T> = Arc<StdMutex<Option<WorkerTaskSenderCtx<T>>>>;

/// A sender of tasks that its worker handle can close at any time.
#[verifier::reject_recursive_types(T)]
pub struct WorkerTaskSender<T> {
    shared_ctx: SharedSenderCtx<T>,
    worker_status: Arc<WorkerStatus>,
}

impl<T> WorkerTaskSender<T> {
    /// The context this sender shares with the handle that handed it out.
    pub closed spec fn shared(&self) -> SharedSenderCtx<T> {
        self.shared_ctx
    }

    /// The status of the worker this sender queues onto.
    pub closed spec fn status(&self) -> Arc<WorkerStatus> {
        self.worker_status
    }

    fn new(shared_ctx: SharedSenderCtx<T>, worker_status: Arc<WorkerStatus>) -> (s: Self)
        ensures
            s.shared() == shared_ctx,
            s.status() == worker_status,
    {
        WorkerTaskSender { shared_ctx, worker_status }
    }

    /// Whether this sender has been closed (it can no longer queue tasks).
    pub fn is_unavailable(&self) -> bool {
        let guard = lock(&self.shared_ctx);
        guarded(&guard).is_none()
    }

    /// Whether a task of the worker has panicked: `None` once this sender was
    /// closed or the worker is being aborted or cancelled.
    pub fn has_panicked(&self) -> Option<bool> {
        let guard = lock(&self.shared_ctx);
        match guarded(&guard) {
            Some(_) => spawner_panicked(self.worker_status.flag()),
            None => None,
        }
    }

    /// Queues a task on the worker, returning the worker's status; or says why
    /// the task was not queued (the refused task is dropped).
    ///
    /// The result is `send_result` of what became of the task; a refused
    /// task is dropped only after the sender's context is unlocked.
    pub fn send(&self, task: T) -> (r: Result<Arc<WorkerStatus>, WorkerSendError>)
        ensures
            exists|o: SendOutcome| outcome_read_from(o, *self.status()) && r == send_result_spec(o, self.status()),
            r is Ok ==> r->Ok_0 == self.status(),
    {
        let offered = {
            let guard = lock(&self.shared_ctx);
            match guarded(&guard) {
                Some(ctx) => Some(send_to_queue(&ctx.task_tx, task)),
                None => None,
            }
        };
        let outcome = send_outcome(offer_of(offered), &self.worker_status);
        let ghost seen = outcome;
        let r = send_result(outcome, Arc::clone(&self.worker_status));
        assert(outcome_read_from(seen, *self.status()) && r == send_result_spec(seen, self.status()));
        r
    }
}

/// What starting an abort did: whether the worker's Tokio task had
/// finished, the attempt on the worker's status when it had not, and the
/// request that the Tokio task abort when that attempt moved the phase.
pub struct AbortStart {
    pub finished: FinishCheck<Result<(), ()>>,
    pub moved: Option<StatusMove>,
    pub aborted: Option<AbortRequested<Result<(), ()>>>,
}

/// What starting a cancel did: whether the worker's Tokio task had
/// finished, and the attempt on the worker's status when it had not.
pub struct CancelStart {
    pub finished: FinishCheck<Result<(), ()>>,
    pub moved: Option<StatusMove>,
}

/// What joining needs once the handle has let go of its queue: the worker's
/// Tokio task, the cell holding the state, and the worker's status.
#[verifier::reject_recursive_types(S)]
pub struct JoinParts<S> {
    pub worker_handle: JoinHandle<Result<(), ()>>,
    pub state: Arc<Mutex<Option<S>>>,
    pub worker_status: Arc<WorkerStatus>,
}

/// The owner of a running worker: its Tokio task, its state, its queue
/// and the context shared with the task senders it handed out.
#[verifier::reject_recursive_types(S)]
#[verifier::reject_recursive_types(T)]
pub struct WorkerHandle<S, T> {
    worker_handle: JoinHandle<Result<(), ()>>,
    worker_status: Arc<WorkerStatus>,
    state: Arc<Mutex<Option<S>>>,
    task_tx: mpsc::UnboundedSender<T>,
    shared_task_senders_ctx: SharedSenderCtx<T>,
}

impl<S, T> WorkerHandle<S, T> {
    pub fn new(
        state: Arc<Mutex<Option<S>>>,
        worker_handle: JoinHandle<Result<(), ()>>,
        worker_status: Arc<WorkerStatus>,
        task_tx: mpsc::UnboundedSender<T>,
    ) -> (h: Self)
        ensures
            h.status() == worker_status,
    {
        let ctx = WorkerTaskSenderCtx { task_tx: clone_queue_sender(&task_tx) };
        let shared_task_senders_ctx = Arc::new(new_mutex(Some(ctx)));
        WorkerHandle { state, worker_handle, worker_status, task_tx, shared_task_senders_ctx }
    }

    /// The worker's status.
    pub closed spec fn status(&self) -> Arc<WorkerStatus> {
        self.worker_status
    }

    /// The worker's Tokio task.
    pub closed spec fn worker_task(&self) -> JoinHandle<Result<(), ()>> {
        self.worker_handle
    }

    /// The context shared with the senders handed out since the last close.
    pub closed spec fn senders_ctx(&self) -> SharedSenderCtx<T> {
        self.shared_task_senders_ctx
    }

    /// Closes every sender handed out so far; senders handed out later are
    /// unaffected.
    pub fn close_senders(&mut self)
        ensures
            final(self).status() == old(self).status(),
    {
        let ctx = {
            let mut guard = lock(&self.shared_task_senders_ctx);
            replace_guarded(&mut guard, None)
        };
        self.shared_task_senders_ctx = Arc::new(new_mutex(ctx));
    }

    /// Whether a task of the worker has panicked: `handle_panicked` of the
    /// phase read.
    pub fn has_panicked(&self) -> bool {
        handle_panicked(self.worker_status.flag())
    }

    /// A new sender of tasks for this worker.
    pub fn sender(&self) -> (s: WorkerTaskSender<T>)
        ensures
            s.shared() == self.senders_ctx(),
            s.status() == self.status(),
    {
        WorkerTaskSender::new(Arc::clone(&self.shared_task_senders_ctx), Arc::clone(&self.worker_status))
    }

    /// Queues a task, returning the worker's status; or says why the task was
    /// not queued. The handle's own queue only closes when the worker loop
    /// stops, which happens after a task panic or a runtime shutdown while the
    /// handle is alive (aborting and cancelling consume the handle).
    pub fn send(&self, task: T) -> (r: Result<Arc<WorkerStatus>, WorkerSendError>)
        ensures
            exists|o: SendOutcome|
                !(o is SenderClosed) && outcome_read_from(o, *self.status()) && r == send_result_spec(o, self.status()),
            r is Ok ==> r->Ok_0 == self.status(),
    {
        let offer = offer_of(Some(send_to_queue(&self.task_tx, task)));
        let outcome = send_outcome(offer, &self.worker_status);
        let ghost seen = outcome;
        let r = send_result(outcome, Arc::clone(&self.worker_status));
        assert(!(seen is SenderClosed) && outcome_read_from(seen, *self.status()) && r == send_result_spec(
            seen,
            self.status(),
        ));
        r
    }

    /// Starts an abort unless the worker's Tokio task already finished: tries
    /// to move the phase to `AbortStarted`, and asks that Tokio task to abort
    /// exactly when the phase moved (it was `Other`; a cancel or a task panic
    /// that came first keeps its phase).
    fn start_abort(&self) -> (a: AbortStart)
        ensures
            a.finished.handle() == self.worker_task(),
            a.finished.finished_spec() ==> a.moved is None && a.aborted is None,
            !a.finished.finished_spec() ==> a.moved is Some && a.moved->Some_0.status() == *self.status()
                && a.moved->Some_0.target() == WorkerFlagSnapshot::AbortStarted,
            a.aborted is Some <==> (a.moved is Some && a.moved->Some_0.started_spec()),
            a.aborted is Some ==> a.aborted->Some_0.handle() == self.worker_task(),
    {
        let finished = check_finished(&self.worker_handle);
        if finished.finished() {
            AbortStart { finished, moved: None, aborted: None }
        } else {
            let moved = self.worker_status.try_move(WorkerFlagSnapshot::AbortStarted);
            let aborted = if moved.started() {
                Some(request_abort(&self.worker_handle))
            } else {
                None
            };
            AbortStart { finished, moved: Some(moved), aborted }
        }
    }

    /// Starts a cancel unless the worker's Tokio task already finished: tries
    /// to move the phase to `CancelStarted` (it moves when it was `Other`).
    fn start_cancel(&self) -> (c: CancelStart)
        ensures
            c.finished.handle() == self.worker_task(),
            c.finished.finished_spec() ==> c.moved is None,
            !c.finished.finished_spec() ==> c.moved is Some && c.moved->Some_0.status() == *self.status()
                && c.moved->Some_0.target() == WorkerFlagSnapshot::CancelStarted,
    {
        let finished = check_finished(&self.worker_handle);
        if finished.finished() {
            CancelStart { finished, moved: None }
        } else {
            let moved = self.worker_status.try_move(WorkerFlagSnapshot::CancelStarted);
            CancelStart { finished, moved: Some(moved) }
        }
    }

    /// Closes every sender and drops the handle's own queue, so that the
    /// worker's queue closes once the tasks already queued are drained.
    fn into_join_parts(self) -> (p: JoinParts<S>)
        ensures
            p.worker_status == self.status(),
    {
        let mut handle = self;
        handle.close_senders();
        let WorkerHandle { worker_handle, worker_status, state, task_tx, shared_task_senders_ctx } = handle;
        JoinParts { worker_handle, state, worker_status }
    }

    /// Cancels the queued tasks, refuses new ones and aborts the running task:
    /// unless the worker's Tokio task already finished, the phase moves to
    /// `AbortStarted` when it was `Other`, and then that Tokio task is asked
    /// to abort. Returns what it found and did.
    pub fn abort(self) -> (a: AbortStart)
        ensures
            a.finished.handle() == self.worker_task(),
            a.finished.finished_spec() ==> a.moved is None && a.aborted is None,
            !a.finished.finished_spec() ==> a.moved is Some && a.moved->Some_0.status() == *self.status()
                && a.moved->Some_0.target() == WorkerFlagSnapshot::AbortStarted,
            a.aborted is Some <==> (a.moved is Some && a.moved->Some_0.started_spec()),
            a.aborted is Some ==> a.aborted->Some_0.handle() == self.worker_task(),
    {
        let a = self.start_abort();
        let _ = self.into_join_parts();
        a
    }

    /// Cancels the queued tasks and refuses new ones; the running task
    /// completes: unless the worker's Tokio task already finished, the phase
    /// moves to `CancelStarted` when it was `Other`. Returns what it found.
    pub fn cancel(self) -> (c: CancelStart)
        ensures
            c.finished.handle() == self.worker_task(),
            c.finished.finished_spec() ==> c.moved is None,
            !c.finished.finished_spec() ==> c.moved is Some && c.moved->Some_0.status() == *self.status()
                && c.moved->Some_0.target() == WorkerFlagSnapshot::CancelStarted,
    {
        let c = self.start_cancel();
        let _ = self.into_join_parts();
        c
    }

    /// The first half of an abort followed by a join: everything up to the
    /// wait for the worker's Tokio task.
    pub fn abort_for_join(self) -> (p: JoinParts<S>)
        ensures
            p.worker_status == self.status(),
    {
        self.start_abort();
        self.into_join_parts()
    }

    /// The first half of a cancel followed by a join.
    pub fn cancel_for_join(self) -> (p: JoinParts<S>)
        ensures
            p.worker_status == self.status(),
    {
        self.start_cancel();
        self.into_join_parts()
    }

    /// The first half of a join: only the handle's own queue and context are
    /// dropped, so the join completes once every sender handed out is gone.
    pub fn release_for_join(self) -> (p: JoinParts<S>)
        ensures
            p.worker_status == self.status(),
    {
        let WorkerHandle { worker_handle, worker_status, state, task_tx, shared_task_senders_ctx } = self;
        JoinParts { worker_handle, state, worker_status }
    }
}

} // verus!
