use std::borrow::Cow;
use vstd::prelude::*;

verus! {

/// Why a worker could not be joined: its Tokio task ended abnormally, with
/// the panic message when there was one.
pub struct WorkerJoinError {
    panic_msg: Option<Cow<'static, str>>,
}

impl WorkerJoinError {
    pub closed spec fn msg(&self) -> Option<Cow<'static, str>> {
        self.panic_msg
    }

    pub fn with_msg(panic_msg: Cow<'static, str>) -> (e: Self)
        ensures
            e.msg() == Some(panic_msg),
    {
        WorkerJoinError { panic_msg: Some(panic_msg) }
    }

    pub fn with_no_msg() -> (e: Self)
        ensures
            e.msg() is None,
    {
        WorkerJoinError { panic_msg: None }
    }

    pub fn into_panic_msg(self) -> (m: Option<Cow<'static, str>>)
        ensures
            m == self.msg(),
    {
        self.panic_msg
    }

    pub fn panic_msg(&self) -> (m: Option<&str>)
        ensures
            m is Some == self.msg() is Some,
            self.msg() matches Some(Cow::Borrowed(b)) ==> m->Some_0@ == b@,
            self.msg() matches Some(Cow::Owned(o)) ==> m->Some_0@ == o@,
    {
        match &self.panic_msg {
            Some(Cow::Borrowed(msg)) => Some(msg),
            Some(Cow::Owned(msg)) => Some(msg.as_str()),
            None => None,
        }
    }
}

} // verus!
