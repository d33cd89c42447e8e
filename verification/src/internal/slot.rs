use super::lock::{lock, new_mutex, replace_guarded};
use std::sync::{Arc, Mutex};
use vstd::prelude::*;

verus! {

/// The value a slot holds, shared by its two ends.
#[verifier::reject_recursive_types(T)]
pub struct State<T> {
    value: Mutex<Option<T>>,
}

/// Creates a slot that holds at most one value, with its two ends: the
/// setter puts a value in (replacing and dropping the one there), the taker
/// takes the value out. Either end may be dropped first; a value left in the
/// slot is dropped with the last end.
pub fn slot<T>() -> (ends: (SlotSetter<T>, SlotTaker<T>))
    ensures
        ends.0.shared() == ends.1.shared(),
{
    let state = Arc::new(State { value: new_mutex(None) });
    let setter = SlotSetter { state: Arc::clone(&state) };
    let taker = SlotTaker { state };
    (setter, taker)
}

/// The end of a slot that puts values in.
#[verifier::reject_recursive_types(T)]
pub struct SlotSetter<T> {
    state: Arc<State<T>>,
}

impl<T> SlotSetter<T> {
    /// The slot this end belongs to.
    pub closed spec fn shared(&self) -> Arc<State<T>> {
        self.state
    }
}

impl<T: Send> SlotSetter<T> {
    /// Puts a value in the slot; a value already there is dropped.
    pub fn set(&self, value: T) {
        let _replaced = {
            let mut guard = lock(&self.state.value);
            replace_guarded(&mut guard, Some(value))
        };
    }
}

/// The end of a slot that takes values out.
#[verifier::reject_recursive_types(T)]
pub struct SlotTaker<T> {
    state: Arc<State<T>>,
}

impl<T> SlotTaker<T> {
    /// The slot this end belongs to.
    pub closed spec fn shared(&self) -> Arc<State<T>> {
        self.state
    }
}

impl<T: Send> SlotTaker<T> {
    /// Takes the value out of the slot, leaving it empty.
    pub fn take(&self) -> Option<T> {
        let mut guard = lock(&self.state.value);
        replace_guarded(&mut guard, None)
    }
}

} // verus!
