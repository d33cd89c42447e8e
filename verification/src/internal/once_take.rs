use super::lock::{lock, new_mutex, replace_guarded};
use std::sync::Mutex;
use vstd::prelude::*;

verus! {

/// A value that threads sharing it can take out at most once: the first
/// `take` gets it, every later one gets `None`.
#[verifier::reject_recursive_types(T)]
pub struct OnceTake<T> {
    value: Mutex<Option<T>>,
}

impl<T> OnceTake<T> {
    /// A cell holding `value`.
    pub fn new(value: T) -> Self {
        OnceTake { value: new_mutex(Some(value)) }
    }

    /// A cell that holds nothing.
    pub fn empty() -> Self {
        OnceTake { value: new_mutex(None) }
    }

    /// A cell holding the value, if there is one.
    pub fn from_option(value: Option<T>) -> Self {
        match value {
            Some(value) => Self::new(value),
            None => Self::empty(),
        }
    }

    /// Takes the value out, leaving the cell empty: only the first call that
    /// finds the value gets it.
    pub fn take(&self) -> Option<T> {
        let mut guard = lock(&self.value);
        replace_guarded(&mut guard, None)
    }
}

} // verus!
