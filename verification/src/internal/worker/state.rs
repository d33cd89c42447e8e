use crate::internal::lock::{guarded, lock, new_mutex, replace_guarded};
use std::sync::atomic::{AtomicU8, Ordering};
use std::sync::{Arc, Mutex};
use vstd::prelude::*;

verus! {

/// The flag bit of an aborted worker.
pub const FLAG_ABORTED: u8 = 1u8;

/// The flag bit of a cancelled worker.
pub const FLAG_CANCELLED: u8 = 2u8;

/// The flag bit of a worker whose handle started a join.
pub const FLAG_JOINED: u8 = 4u8;

/// Whether the flag bit `flag` is set in `bits`.
pub open spec fn has_flag(bits: u8, flag: u8) -> bool {
    bits & flag != 0
}

/// The state a worker shares with its handle and senders: a set of flags
/// that only ever grows, and the panic message of the task that stopped it,
/// recorded once.
pub struct WorkerState {
    flags: AtomicU8,
    task_panic_msg: Mutex<Option<Option<Arc<String>>>>,
}

impl WorkerState {
    /// The flags as they are now.
    pub fn flags(&self) -> WorkerFlagsSnapshot {
        WorkerFlagsSnapshot { flags: self.get_flags() }
    }

    /// The panic message of the task that stopped the worker, if one did and
    /// its panic had a message (a worker may have stopped on a panic without one).
    pub fn task_panic_msg(&self) -> Option<Arc<String>> {
        let guard = lock(&self.task_panic_msg);
        match guarded(&guard) {
            Some(Some(msg)) => Some(Arc::clone(msg)),
            _ => None,
        }
    }

    /// The state of a new worker: no flag, no message.
    pub fn new() -> Self {
        WorkerState { flags: AtomicU8::new(0), task_panic_msg: new_mutex(None) }
    }

    pub fn set_aborted(&self) {
        self.set_flag(FLAG_ABORTED);
    }

    pub fn set_joined(&self) {
        self.set_flag(FLAG_JOINED);
    }

    pub fn set_cancelled(&self) {
        self.set_flag(FLAG_CANCELLED);
    }

    /// Records the panic message; a message recorded before is kept, and the
    /// one given is handed back.
    pub fn set_task_panic_msg(&self, msg: Option<Arc<String>>) -> (r: Result<(), Option<Arc<String>>>)
        ensures
            r is Err ==> r->Err_0 == msg,
    {
        let mut guard = lock(&self.task_panic_msg);
        if guarded(&guard).is_some() {
            Err(msg)
        } else {
            let _ = replace_guarded(&mut guard, Some(msg));
            Ok(())
        }
    }

    fn set_flag(&self, flag: u8) {
        let _ = self.flags.fetch_or(flag, Ordering::Release);
    }

    fn get_flags(&self) -> u8 {
        self.flags.load(Ordering::Acquire)
    }
}

/// The flags of a worker at one moment.
pub struct WorkerFlagsSnapshot {
    flags: u8,
}

impl WorkerFlagsSnapshot {
    pub closed spec fn bits(&self) -> u8 {
        self.flags
    }

    /// A snapshot holding the given flag bits.
    pub fn from_bits(flags: u8) -> (s: Self)
        ensures
            s.bits() == flags,
    {
        WorkerFlagsSnapshot { flags }
    }

    pub fn is_cancelled(&self) -> (r: bool)
        ensures
            r == has_flag(self.bits(), FLAG_CANCELLED),
    {
        self.flags & FLAG_CANCELLED != 0
    }

    pub fn is_joined(&self) -> (r: bool)
        ensures
            r == has_flag(self.bits(), FLAG_JOINED),
    {
        self.flags & FLAG_JOINED != 0
    }

    pub fn is_aborted(&self) -> (r: bool)
        ensures
            r == has_flag(self.bits(), FLAG_ABORTED),
    {
        self.flags & FLAG_ABORTED != 0
    }
}

/// Setting a flag (as `fetch_or` does) sets that flag and leaves the other
/// two as they were: the flags only ever grow, and each is independent.
pub proof fn law_set_flag_sets_only_that_flag(bits: u8)
    ensures
        has_flag(bits | FLAG_ABORTED, FLAG_ABORTED),
        has_flag(bits | FLAG_ABORTED, FLAG_CANCELLED) == has_flag(bits, FLAG_CANCELLED),
        has_flag(bits | FLAG_ABORTED, FLAG_JOINED) == has_flag(bits, FLAG_JOINED),
        has_flag(bits | FLAG_CANCELLED, FLAG_CANCELLED),
        has_flag(bits | FLAG_CANCELLED, FLAG_ABORTED) == has_flag(bits, FLAG_ABORTED),
        has_flag(bits | FLAG_CANCELLED, FLAG_JOINED) == has_flag(bits, FLAG_JOINED),
        has_flag(bits | FLAG_JOINED, FLAG_JOINED),
        has_flag(bits | FLAG_JOINED, FLAG_ABORTED) == has_flag(bits, FLAG_ABORTED),
        has_flag(bits | FLAG_JOINED, FLAG_CANCELLED) == has_flag(bits, FLAG_CANCELLED),
        !has_flag(0u8, FLAG_ABORTED) && !has_flag(0u8, FLAG_CANCELLED) && !has_flag(0u8, FLAG_JOINED),
{
    assert((bits | 1u8) & 1u8 != 0) by (bit_vector);
    assert((bits | 1u8) & 2u8 != 0 <==> bits & 2u8 != 0) by (bit_vector);
    assert((bits | 1u8) & 4u8 != 0 <==> bits & 4u8 != 0) by (bit_vector);
    assert((bits | 2u8) & 2u8 != 0) by (bit_vector);
    assert((bits | 2u8) & 1u8 != 0 <==> bits & 1u8 != 0) by (bit_vector);
    assert((bits | 2u8) & 4u8 != 0 <==> bits & 4u8 != 0) by (bit_vector);
    assert((bits | 4u8) & 4u8 != 0) by (bit_vector);
    assert((bits | 4u8) & 1u8 != 0 <==> bits & 1u8 != 0) by (bit_vector);
    assert((bits | 4u8) & 2u8 != 0 <==> bits & 2u8 != 0) by (bit_vector);
    assert(0u8 & 1u8 == 0 && 0u8 & 2u8 == 0 && 0u8 & 4u8 == 0) by (bit_vector);
}

} // verus!
