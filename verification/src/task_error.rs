use crate::internal::PanicPayload;
use std::sync::Arc;
use vstd::prelude::*;

verus! {

/// The kind of error that occurred while waiting for a task to complete.
#[derive(Clone, Copy, Debug, Hash, PartialEq, Eq, Structural)]
pub enum TaskErrorKind {
    /// The worker was aborted before the task completed.
    WorkerAborted,
    /// The worker was cancelled before the task started.
    WorkerCancelled,
    /// A previous task panicked, which may have left the state invalid.
    PreviousTaskPanic,
    /// The task was spawned after its spawner became unavailable.
    TaskSpawnerUnavailable,
    /// The task was cancelled through its handle.
    TaskCancelled,
    /// The task panicked.
    TaskPanic,
    /// The worker's Tokio task was aborted because the runtime shut down.
    RuntimeShutdown,
}

/// The text that describes an error kind.
pub open spec fn kind_message(kind: TaskErrorKind) -> Seq<char> {
    match kind {
        TaskErrorKind::WorkerAborted => "worker was aborted"@,
        TaskErrorKind::WorkerCancelled => "worker was cancelled"@,
        TaskErrorKind::TaskSpawnerUnavailable => "task spawner was unavailable"@,
        TaskErrorKind::TaskCancelled => "task was cancelled"@,
        TaskErrorKind::PreviousTaskPanic => "previous task panicked"@,
        TaskErrorKind::TaskPanic => "task panicked"@,
        TaskErrorKind::RuntimeShutdown => "the Tokio runtime was shut down"@,
    }
}

impl TaskErrorKind {
    /// Returns true if the error was caused by the worker being aborted.
    /// A blocking task already running when the worker is aborted keeps
    /// running and does not report this error.
    pub fn is_worker_aborted(&self) -> (r: bool)
        ensures
            r == (*self == TaskErrorKind::WorkerAborted),
    {
        match self {
            TaskErrorKind::WorkerAborted => true,
            _ => false,
        }
    }

    /// Returns true if the error was caused by the worker being cancelled.
    pub fn is_worker_cancelled(&self) -> (r: bool)
        ensures
            r == (*self == TaskErrorKind::WorkerCancelled),
    {
        match self {
            TaskErrorKind::WorkerCancelled => true,
            _ => false,
        }
    }

    /// Returns true if the error was caused by a previous task panicking,
    /// which may have left the worker state in an invalid state.
    pub fn is_previous_task_panic(&self) -> (r: bool)
        ensures
            r == (*self == TaskErrorKind::PreviousTaskPanic),
    {
        match self {
            TaskErrorKind::PreviousTaskPanic => true,
            _ => false,
        }
    }

    /// Returns true if the error was caused by an attempt to spawn the task
    /// after the spawner became unavailable.
    pub fn is_task_spawner_unavailable(&self) -> (r: bool)
        ensures
            r == (*self == TaskErrorKind::TaskSpawnerUnavailable),
    {
        match self {
            TaskErrorKind::TaskSpawnerUnavailable => true,
            _ => false,
        }
    }

    /// Returns true if the error was caused by the task being cancelled through its handle.
    pub fn is_task_cancelled(&self) -> (r: bool)
        ensures
            r == (*self == TaskErrorKind::TaskCancelled),
    {
        match self {
            TaskErrorKind::TaskCancelled => true,
            _ => false,
        }
    }

    /// Returns true if the error was caused by the task panicking.
    pub fn is_task_panic(&self) -> (r: bool)
        ensures
            r == (*self == TaskErrorKind::TaskPanic),
    {
        match self {
            TaskErrorKind::TaskPanic => true,
            _ => false,
        }
    }

    /// Returns true if the error was caused by the worker's Tokio task being
    /// aborted because the Tokio runtime shut down.
    pub fn is_runtime_shutdown(&self) -> (r: bool)
        ensures
            r == (*self == TaskErrorKind::RuntimeShutdown),
    {
        match self {
            TaskErrorKind::RuntimeShutdown => true,
            _ => false,
        }
    }

    /// The text that describes this kind.
    pub fn message(&self) -> (s: String)
        ensures
            s@ == kind_message(*self),
    {
        match self {
            TaskErrorKind::WorkerAborted => "worker was aborted".to_owned(),
            TaskErrorKind::WorkerCancelled => "worker was cancelled".to_owned(),
            TaskErrorKind::TaskSpawnerUnavailable => "task spawner was unavailable".to_owned(),
            TaskErrorKind::TaskCancelled => "task was cancelled".to_owned(),
            TaskErrorKind::PreviousTaskPanic => "previous task panicked".to_owned(),
            TaskErrorKind::TaskPanic => "task panicked".to_owned(),
            TaskErrorKind::RuntimeShutdown => "the Tokio runtime was shut down".to_owned(),
        }
    }
}

/// Exactly one of the kind predicates holds of every kind.
pub proof fn law_each_kind_has_one_predicate(kind: TaskErrorKind)
    ensures
        (kind == TaskErrorKind::WorkerAborted) as int + (kind == TaskErrorKind::WorkerCancelled) as int
            + (kind == TaskErrorKind::PreviousTaskPanic) as int + (kind
            == TaskErrorKind::TaskSpawnerUnavailable) as int + (kind == TaskErrorKind::TaskCancelled) as int
            + (kind == TaskErrorKind::TaskPanic) as int + (kind == TaskErrorKind::RuntimeShutdown) as int
            == 1,
{
}

/// An error that occurred while waiting for a task to complete. `B` is the
/// type of a caught panic's payload.
pub struct TaskError<B> {
    repr: Repr<B>,
}

enum Repr<B> {
    WorkerAborted,
    WorkerCancelled,
    TaskSpawnerUnavailable,
    TaskCancelled,
    TaskPanic { panic: PanicPayload<B> },
    PrevTaskPanic { panic_msg: Option<Arc<String>> },
    RuntimeShutdown,
}

/// Whether an error kind counts as the task being cancelled, explicitly or
/// implicitly: every kind but a panic of the task itself.
pub open spec fn kind_is_cancellation(kind: TaskErrorKind) -> bool {
    ||| kind == TaskErrorKind::WorkerAborted
    ||| kind == TaskErrorKind::WorkerCancelled
    ||| kind == TaskErrorKind::TaskSpawnerUnavailable
    ||| kind == TaskErrorKind::TaskCancelled
    ||| kind == TaskErrorKind::PreviousTaskPanic
    ||| kind == TaskErrorKind::RuntimeShutdown
}

impl<B> TaskError<B> {
    /// The kind of this error.
    pub closed spec fn kind_spec(&self) -> TaskErrorKind {
        match self.repr {
            Repr::WorkerAborted => TaskErrorKind::WorkerAborted,
            Repr::WorkerCancelled => TaskErrorKind::WorkerCancelled,
            Repr::TaskSpawnerUnavailable => TaskErrorKind::TaskSpawnerUnavailable,
            Repr::TaskCancelled => TaskErrorKind::TaskCancelled,
            Repr::TaskPanic { .. } => TaskErrorKind::TaskPanic,
            Repr::PrevTaskPanic { .. } => TaskErrorKind::PreviousTaskPanic,
            Repr::RuntimeShutdown => TaskErrorKind::RuntimeShutdown,
        }
    }

    /// The caught panic of a `TaskPanic` error.
    pub closed spec fn panic_spec(&self) -> PanicPayload<B> {
        self.repr->TaskPanic_panic
    }

    /// The message of the earlier panic of a `PreviousTaskPanic` error.
    pub closed spec fn prev_panic_msg_spec(&self) -> Option<Arc<String>> {
        self.repr->PrevTaskPanic_panic_msg
    }

    /// The text that describes this error.
    pub open spec fn message_spec(&self) -> Seq<char> {
        if self.kind_spec() == TaskErrorKind::PreviousTaskPanic && self.prev_panic_msg_spec() is Some {
            "previous task panicked: "@ + self.prev_panic_msg_spec()->Some_0@
        } else if self.kind_spec() == TaskErrorKind::TaskPanic && self.panic_spec().message() is Some {
            "task panicked: "@ + self.panic_spec().message()->Some_0
        } else {
            kind_message(self.kind_spec())
        }
    }

    pub fn task_panicked(panic: PanicPayload<B>) -> (e: Self)
        ensures
            e.kind_spec() == TaskErrorKind::TaskPanic,
            e.panic_spec() == panic,
    {
        TaskError { repr: Repr::TaskPanic { panic } }
    }

    pub fn prev_task_panicked(panic_msg: Option<Arc<String>>) -> (e: Self)
        ensures
            e.kind_spec() == TaskErrorKind::PreviousTaskPanic,
            e.prev_panic_msg_spec() == panic_msg,
    {
        TaskError { repr: Repr::PrevTaskPanic { panic_msg } }
    }

    pub fn worker_aborted() -> (e: Self)
        ensures
            e.kind_spec() == TaskErrorKind::WorkerAborted,
    {
        TaskError { repr: Repr::WorkerAborted }
    }

    pub fn worker_cancelled() -> (e: Self)
        ensures
            e.kind_spec() == TaskErrorKind::WorkerCancelled,
    {
        TaskError { repr: Repr::WorkerCancelled }
    }

    pub fn runtime_shutdown() -> (e: Self)
        ensures
            e.kind_spec() == TaskErrorKind::RuntimeShutdown,
    {
        TaskError { repr: Repr::RuntimeShutdown }
    }

    pub fn worker_task_sender_unavailable() -> (e: Self)
        ensures
            e.kind_spec() == TaskErrorKind::TaskSpawnerUnavailable,
    {
        TaskError { repr: Repr::TaskSpawnerUnavailable }
    }

    pub fn task_cancelled() -> (e: Self)
        ensures
            e.kind_spec() == TaskErrorKind::TaskCancelled,
    {
        TaskError { repr: Repr::TaskCancelled }
    }

    /// Extracts the caught panic payload of an error caused by the task
    /// itself panicking (any other error has no payload to give).
    pub fn into_panic(self) -> (b: B)
        requires
            self.kind_spec() == TaskErrorKind::TaskPanic,
        ensures
            b == self.panic_spec().payload(),
    {
        match self.repr {
            Repr::TaskPanic { panic } => panic.into_inner(),
            _ => {
                proof {
                    assert(false);
                }
                unreached()
            },
        }
    }

    /// Extracts the caught panic payload if the error was caused by the
    /// task itself panicking; else gives the error back.
    pub fn try_into_panic(self) -> (r: Result<B, Self>)
        ensures
            r is Ok == (self.kind_spec() == TaskErrorKind::TaskPanic),
            r is Ok ==> r->Ok_0 == self.panic_spec().payload(),
            r is Err ==> r->Err_0 == self,
    {
        match self.repr {
            Repr::TaskPanic { panic } => Ok(panic.into_inner()),
            _ => Err(self),
        }
    }

    /// Returns true if the error was caused by the task being cancelled,
    /// either explicitly or implicitly: when the kind is anything but a
    /// panic of the task itself.
    pub fn is_cancelled(&self) -> (r: bool)
        ensures
            r == kind_is_cancellation(self.kind_spec()),
    {
        let kind = self.kind();
        kind.is_worker_aborted() || kind.is_worker_cancelled() || kind.is_task_spawner_unavailable()
            || kind.is_task_cancelled() || kind.is_previous_task_panic() || kind.is_runtime_shutdown()
    }

    /// Returns true if the error was caused by the task panicking.
    pub fn is_panic(&self) -> (r: bool)
        ensures
            r == (self.kind_spec() == TaskErrorKind::TaskPanic),
    {
        self.kind().is_task_panic()
    }

    /// The kind of this error.
    pub fn kind(&self) -> (k: TaskErrorKind)
        ensures
            k == self.kind_spec(),
    {
        match self.repr {
            Repr::WorkerAborted => TaskErrorKind::WorkerAborted,
            Repr::WorkerCancelled => TaskErrorKind::WorkerCancelled,
            Repr::TaskSpawnerUnavailable => TaskErrorKind::TaskSpawnerUnavailable,
            Repr::TaskCancelled => TaskErrorKind::TaskCancelled,
            Repr::TaskPanic { .. } => TaskErrorKind::TaskPanic,
            Repr::PrevTaskPanic { .. } => TaskErrorKind::PreviousTaskPanic,
            Repr::RuntimeShutdown => TaskErrorKind::RuntimeShutdown,
        }
    }

    /// The panic message carried by the error: the task's own panic message
    /// for `TaskPanic`, the earlier task's for `PreviousTaskPanic`.
    pub fn panic_msg(&self) -> (m: Option<&str>)
        ensures
            m is Some ==> (self.kind_spec() == TaskErrorKind::TaskPanic && self.panic_spec().message()
                == Some(m->Some_0@)) || (self.kind_spec() == TaskErrorKind::PreviousTaskPanic
                && self.prev_panic_msg_spec() is Some && self.prev_panic_msg_spec()->Some_0@ == m->Some_0@),
            m is None ==> !(self.kind_spec() == TaskErrorKind::TaskPanic && self.panic_spec().message() is Some)
                && !(self.kind_spec() == TaskErrorKind::PreviousTaskPanic && self.prev_panic_msg_spec() is Some),
    {
        match &self.repr {
            Repr::TaskPanic { panic } => panic.as_str(),
            Repr::PrevTaskPanic { panic_msg } => match panic_msg {
                Some(msg) => Some(msg.as_str()),
                None => None,
            },
            _ => None,
        }
    }

    /// The text that describes this error, with the panic message where
    /// there is one.
    pub fn message(&self) -> (s: String)
        ensures
            s@ == self.message_spec(),
    {
        match &self.repr {
            Repr::PrevTaskPanic { panic_msg: Some(msg) } => {
                let mut s = "previous task panicked: ".to_owned();
                s.append(msg.as_str());
                s
            },
            Repr::TaskPanic { panic } => match panic.as_str() {
                Some(msg) => {
                    let mut s = "task panicked: ".to_owned();
                    s.append(msg);
                    s
                },
                None => self.kind().message(),
            },
            _ => self.kind().message(),
        }
    }
}

/// An error counts as a cancellation exactly when it is not a panic of the task.
pub proof fn law_cancelled_or_panicked<B>(e: TaskError<B>)
    ensures
        kind_is_cancellation(e.kind_spec()) == (e.kind_spec() != TaskErrorKind::TaskPanic),
{
}

} // verus!
