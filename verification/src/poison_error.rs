use crate::internal::worker::WorkerJoinError;
use std::sync::Arc;
use vstd::prelude::*;

verus! {

/// An error indicating that the state is poisoned: a task panicked, the
/// worker's Tokio task was aborted because the runtime shut down, or the
/// worker was aborted. The state may violate its invariants.
pub struct PoisonError<S> {
    repr: WorkerJoinError<S>,
}

impl<S> PoisonError<S> {
    /// Why the state is poisoned, with the state.
    pub closed spec fn reason(&self) -> WorkerJoinError<S> {
        self.repr
    }

    /// The error for a worker that ended for the given reason.
    pub fn new(repr: WorkerJoinError<S>) -> (e: Self)
        ensures
            e.reason() == repr,
    {
        PoisonError { repr }
    }

    /// Consumes the error, returning the state (which may violate its invariants).
    pub fn into_inner(self) -> (s: S)
        ensures
            s == self.reason().state_of(),
    {
        match self.repr {
            WorkerJoinError::AnyTaskPanic { poisoned_state, .. } => poisoned_state,
            WorkerJoinError::RuntimeShutdown { poisoned_state } => poisoned_state,
            WorkerJoinError::WorkerAborted { poisoned_state } => poisoned_state,
        }
    }

    /// Returns true if the state was poisoned due to a task panic.
    pub fn is_task_panic(&self) -> (r: bool)
        ensures
            r == self.reason() is AnyTaskPanic,
    {
        match &self.repr {
            WorkerJoinError::AnyTaskPanic { .. } => true,
            _ => false,
        }
    }

    /// Returns true if the state was poisoned due to the Tokio runtime being shut down.
    pub fn is_runtime_shutdown(&self) -> (r: bool)
        ensures
            r == self.reason() is RuntimeShutdown,
    {
        match &self.repr {
            WorkerJoinError::RuntimeShutdown { .. } => true,
            _ => false,
        }
    }

    /// Returns true if the state was poisoned because the worker was aborted.
    pub fn is_worker_aborted(&self) -> (r: bool)
        ensures
            r == self.reason() is WorkerAborted,
    {
        match &self.repr {
            WorkerJoinError::WorkerAborted { .. } => true,
            _ => false,
        }
    }

    /// The panic message of the task that panicked, if it had one.
    pub fn panic_msg(&self) -> (m: Option<Arc<String>>)
        ensures
            m == (match self.reason() {
                WorkerJoinError::AnyTaskPanic { panic_msg, .. } => panic_msg,
                _ => None,
            }),
    {
        match &self.repr {
            WorkerJoinError::AnyTaskPanic { panic_msg: Some(msg), .. } => Some(Arc::clone(msg)),
            _ => None,
        }
    }

    /// The text that describes why the state is poisoned.
    pub fn message(&self) -> (s: String)
        ensures
            s@ == (match self.reason() {
                WorkerJoinError::AnyTaskPanic { panic_msg, .. } => match panic_msg {
                    Some(msg) => "a task executed by the worker panicked: "@ + msg@,
                    None => "a task executed by the worker panicked"@,
                },
                WorkerJoinError::RuntimeShutdown { .. } => "the Tokio runtime was shut down"@,
                WorkerJoinError::WorkerAborted { .. } => "the worker was aborted"@,
            }),
    {
        match &self.repr {
            WorkerJoinError::AnyTaskPanic { panic_msg, .. } => match panic_msg {
                Some(msg) => {
                    let mut s = "a task executed by the worker panicked: ".to_owned();
                    s.append(msg.as_str());
                    s
                },
                None => "a task executed by the worker panicked".to_owned(),
            },
            WorkerJoinError::RuntimeShutdown { .. } => "the Tokio runtime was shut down".to_owned(),
            WorkerJoinError::WorkerAborted { .. } => "the worker was aborted".to_owned(),
        }
    }
}

/// A poisoned state always has exactly one of the three causes, and the
/// state is given back as the worker left it.
pub proof fn law_poison_has_one_cause<S>(e: PoisonError<S>)
    ensures
        (e.reason() is AnyTaskPanic) as int + (e.reason() is RuntimeShutdown) as int + (e.reason() is WorkerAborted) as int
            == 1,
{
}

} // verus!
