use crate::internal::worker::{outcome_read_from, send_result_spec, SendOutcome, WorkerSendError, WorkerStatus, WorkerTaskSender};
use std::sync::Arc;
use vstd::prelude::*;

verus! {

/// A handle for queuing tasks onto the associated worker, from any thread.
///
/// The worker's handle can close its spawners; a worker that is aborted or
/// cancelled closes them too. A join of the worker does not complete while a
/// spawner that was not closed is alive.
#[verifier::reject_recursive_types(T)]
pub struct TaskSpawner<T> {
    repr: WorkerTaskSender<T>,
}

impl<T> TaskSpawner<T> {
    /// The sender behind this spawner.
    pub closed spec fn sender(&self) -> WorkerTaskSender<T> {
        self.repr
    }

    pub fn new(repr: WorkerTaskSender<T>) -> (s: Self)
        ensures
            s.sender() == repr,
    {
        TaskSpawner { repr }
    }

    /// Returns true if this spawner can no longer queue tasks: it was
    /// closed, or the worker was aborted or cancelled. From then on every
    /// task it is given reports `TaskSpawnerUnavailable`.
    pub fn is_unavailable(&self) -> bool {
        self.repr.is_unavailable()
    }

    /// Returns true if a task executed by the worker has panicked (from then
    /// on, tasks report `PreviousTaskPanic`); `None` if the spawner is
    /// unavailable or the worker is being aborted or cancelled.
    pub fn has_panicked(&self) -> Option<bool> {
        self.repr.has_panicked()
    }

    /// Queues a task on the worker, returning the worker's status, or says
    /// why the task was not queued.
    pub fn send(&self, task: T) -> (r: Result<Arc<WorkerStatus>, WorkerSendError>)
        ensures
            exists|o: SendOutcome|
                outcome_read_from(o, *self.sender().status()) && r == send_result_spec(o, self.sender().status()),
            r is Ok ==> r->Ok_0 == self.sender().status(),
    {
        let r = self.repr.send(task);
        proof {
            let o = choose|o: SendOutcome|
                outcome_read_from(o, *self.repr.status()) && r == send_result_spec(o, self.repr.status());
            assert(outcome_read_from(o, *self.sender().status()) && r == send_result_spec(o, self.sender().status()));
        }
        r
    }
}

} // verus!
