//! Synchronization primitives.

pub mod interface;

use crate::synchronization::interface::Mutex;
use vstd::prelude::*;

verus! {

/// A pseudo-lock for a core that runs alone.
///
/// Nothing is locked: there is nobody to keep out yet. What stands for the
/// lock is the exclusive borrow that [`Mutex::lock`] takes, which no second
/// caller can hold at the same time.
pub struct NullLock<T> {
    data: T,
}

impl<T> NullLock<T> {
    /// Wraps `data`.
    pub fn new(data: T) -> (lock: Self)
        ensures
            lock.data() == data,
    {
        Self { data }
    }
}

impl<T> Mutex for NullLock<T> {
    type Data = T;

    closed spec fn data(&self) -> T {
        self.data
    }

    fn lock<R, F: FnOnce(&mut T) -> R>(&mut self, f: F) -> (result: R) {
        f(&mut self.data)
    }
}

} // verus!
