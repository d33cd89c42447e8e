use std::sync::Arc;
use vstd::prelude::*;

verus! {

/// Why the handle's own queue refused a task: it only closes after a task panicked.
pub enum WorkerSendError {
    PrevTaskPanic { panic_msg: Option<Arc<String>> },
}

/// Why a weak task sender could not queue a task.
pub enum WorkerTaskSenderSendError {
    PrevTaskPanic { panic_msg: Option<Arc<String>> },
    WorkerAborted,
    WorkerJoined,
    WorkerCancelled,
}

} // verus!
