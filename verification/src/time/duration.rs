//! `core::time::Duration` as this library sees it: a whole number of
//! nanoseconds.

use core::time::Duration;
use vstd::prelude::*;

verus! {

/// Nanoseconds in a second.
pub const NANOSEC_PER_SEC: u64 = 1_000_000_000;

/// The length of `d` in nanoseconds: what `Duration::as_nanos` returns for
/// it.
pub uninterp spec fn duration_nanos(d: Duration) -> nat;

/// `Duration::new` makes the duration of `secs` seconds and `nanos`
/// nanoseconds more. A billion nanoseconds or more carry over into the
/// seconds, and std panics where that carry leaves the range of `u64`: those
/// arguments are left out.
pub assume_specification[ Duration::new ](secs: u64, nanos: u32) -> (d: Duration)
    requires
        secs + nanos / 1_000_000_000 <= u64::MAX,
    ensures
        duration_nanos(d) == secs * 1_000_000_000 + nanos,
;

/// `Duration::as_nanos` returns the whole length in nanoseconds.
pub assume_specification[ Duration::as_nanos ](d: &Duration) -> (nanos: u128)
    ensures
        nanos == duration_nanos(*d),
;

} // verus!
