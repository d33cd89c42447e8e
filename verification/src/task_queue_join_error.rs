use crate::internal::worker::join_error::WorkerJoinError;
use std::borrow::Cow;
use vstd::prelude::*;

verus! {

/// An error that occurred while waiting for a task queue to complete: a task panicked.
pub struct TaskQueueJoinError {
    repr: WorkerJoinError,
}

impl TaskQueueJoinError {
    pub closed spec fn inner(&self) -> WorkerJoinError {
        self.repr
    }

    pub fn new(value: WorkerJoinError) -> (e: Self)
        ensures
            e.inner() == value,
    {
        TaskQueueJoinError { repr: value }
    }

    /// The panic message of the task, if it had one.
    pub fn panic_msg(&self) -> (m: Option<&str>)
        ensures
            m is Some == self.inner().msg() is Some,
            self.inner().msg() matches Some(Cow::Borrowed(b)) ==> m->Some_0@ == b@,
            self.inner().msg() matches Some(Cow::Owned(o)) ==> m->Some_0@ == o@,
    {
        self.repr.panic_msg()
    }

    /// The text that describes the error (also the message of the panic
    /// that resumes it).
    pub fn message(&self) -> (s: String)
        ensures
            self.inner().msg() is None ==> s@ == "task panicked"@,
            self.inner().msg() matches Some(Cow::Borrowed(b)) ==> s@ == "task panicked: "@ + b@,
            self.inner().msg() matches Some(Cow::Owned(o)) ==> s@ == "task panicked: "@ + o@,
    {
        match self.repr.panic_msg() {
            Some(msg) => {
                let mut s = "task panicked: ".to_owned();
                s.append(msg);
                s
            },
            None => "task panicked".to_owned(),
        }
    }
}

} // verus!
