//! What a lock offers.

use vstd::prelude::*;

verus! {

/// `f` may be called on data that stands at `before`.
pub open spec fn accepts<T, R, F: FnOnce(&mut T) -> R>(f: F, before: T) -> bool {
    forall|data: &mut T| *data == before ==> #[trigger] f.requires((data,))
}

/// Any object implementing this trait guarantees exclusive access to the data
/// wrapped within the mutex for the duration of the provided closure.
pub trait Mutex {
    /// The type of the data that is wrapped by this mutex.
    type Data;

    /// The data that the mutex wraps.
    spec fn data(&self) -> Self::Data;

    /// Locks the mutex and grants the closure temporary mutable access to the
    /// wrapped data.
    ///
    /// The closure runs once, on the data as the mutex holds it. What the
    /// closure leaves there is what the mutex holds afterwards, and what the
    /// closure returns is returned.
    fn lock<R, F: FnOnce(&mut Self::Data) -> R>(&mut self, f: F) -> (result: R)
        requires
            accepts(f, old(self).data()),
        ensures
            exists|data: &mut Self::Data|
                *data == old(self).data() && *final(data) == final(self).data()
                    && #[trigger] f.ensures((data,), result),
    ;
}

/// A closure that returns nothing but `k` makes the lock return `k`.
///
/// The first premise is what [`Mutex::lock`] ensures of a call that found
/// `before` behind the lock, left `after` there and returned `result`.
pub proof fn lemma_lock_returns_what_the_closure_returns<T, R, F: FnOnce(&mut T) -> R>(
    f: F,
    before: T,
    after: T,
    result: R,
    k: R,
)
    requires
        exists|data: &mut T|
            *data == before && *final(data) == after && #[trigger] f.ensures((data,), result),
        forall|data: &mut T, r: R| #[trigger] f.ensures((data,), r) ==> r == k,
    ensures
        result == k,
{
}

/// What one closure writes behind the lock is what the next closure reads
/// there.
///
/// The first two premises are what [`Mutex::lock`] ensures of two calls, one
/// after the other: the second finds what the first left.
pub proof fn lemma_lock_keeps_what_the_closure_wrote<
    T,
    R,
    F: FnOnce(&mut T) -> R,
    G: FnOnce(&mut T) -> T,
>(write: F, read: G, before: T, between: T, after: T, written: T, returned: R, found: T)
    requires
        exists|data: &mut T|
            *data == before && *final(data) == between && #[trigger] write.ensures(
                (data,),
                returned,
            ),
        exists|data: &mut T|
            *data == between && *final(data) == after && #[trigger] read.ensures((data,), found),
        forall|data: &mut T, r: R| #[trigger] write.ensures((data,), r) ==> *final(data) == written,
        forall|data: &mut T, r: T| #[trigger] read.ensures((data,), r) ==> r == *data,
    ensures
        found == written,
{
}

} // verus!
