//! What a number of ticks is in nanoseconds, what a number of nanoseconds is
//! in ticks, and what holds between the two.

use crate::time::duration::NANOSEC_PER_SEC;
use vstd::arithmetic::div_mod::{
    lemma_div_is_ordered, lemma_fundamental_div_mod, lemma_fundamental_div_mod_converse,
    lemma_mod_multiples_basic,
};
use vstd::prelude::*;

verus! {

/// The whole nanoseconds that `ticks` ticks take at `frequency` ticks per
/// second. What is left of a nanosecond is dropped.
pub open spec fn ticks_to_nanos(ticks: nat, frequency: nat) -> nat {
    (ticks * NANOSEC_PER_SEC as nat) / frequency
}

/// The whole ticks that pass in `nanos` nanoseconds at `frequency` ticks per
/// second, where a 64-bit counter can hold them. What is left of a tick is
/// dropped.
///
/// More than the time of `u64::MAX` ticks is `None`.
pub open spec fn nanos_to_ticks(nanos: nat, frequency: nat) -> Option<nat> {
    if nanos > ticks_to_nanos(u64::MAX as nat, frequency) {
        None
    } else {
        Some((nanos * frequency) / NANOSEC_PER_SEC as nat)
    }
}

/// With a positive divisor, `q` is at most `x / d` just when `q * d` is at
/// most `x`.
pub proof fn lemma_div_lower_bound(x: int, d: int, q: int)
    requires
        d > 0,
    ensures
        q <= x / d <==> q * d <= x,
{
    lemma_fundamental_div_mod(x, d);
    assert(q <= x / d ==> q * d <= x) by (nonlinear_arith)
        requires
            d > 0,
            x == d * (x / d) + x % d,
            0 <= x % d < d,
    ;
    assert(q * d <= x ==> q <= x / d) by (nonlinear_arith)
        requires
            d > 0,
            x == d * (x / d) + x % d,
            0 <= x % d < d,
    ;
}

/// Whole seconds and the nanoseconds of what is left, added up, are the
/// nanoseconds of the whole.
pub proof fn lemma_split_seconds(ticks: nat, frequency: nat)
    requires
        frequency > 0,
    ensures
        ({
            let secs = ticks as int / frequency as int;
            let nanos = ((ticks as int % frequency as int) * NANOSEC_PER_SEC) / frequency as int;
            &&& 0 <= nanos < NANOSEC_PER_SEC
            &&& secs * NANOSEC_PER_SEC + nanos == ticks_to_nanos(ticks, frequency)
        }),
{
    let n = NANOSEC_PER_SEC as int;
    let t = ticks as int;
    let f = frequency as int;
    let rest = (t % f) * n;
    lemma_fundamental_div_mod(t, f);
    lemma_fundamental_div_mod(rest, f);
    let q = (t / f) * n + rest / f;
    let r = rest % f;
    assert(t * n == q * f + r) by (nonlinear_arith)
        requires
            t == f * (t / f) + t % f,
            rest == (t % f) * n,
            rest == f * (rest / f) + rest % f,
            q == (t / f) * n + rest / f,
            r == rest % f,
    ;
    lemma_fundamental_div_mod_converse(t * n, f, q, r);
    assert(rest / f < n) by {
        assert(rest < n * f) by (nonlinear_arith)
            requires
                rest == (t % f) * n,
                0 <= t % f < f,
                n > 0,
        ;
        lemma_div_lower_bound(rest, f, n);
    }
}

/// A time that is not longer than the longest that the counter can measure
/// is a number of ticks that the counter can hold.
pub proof fn lemma_ticks_fit(nanos: nat, frequency: nat)
    requires
        frequency > 0,
        nanos <= ticks_to_nanos(u64::MAX as nat, frequency),
    ensures
        nanos * frequency <= u64::MAX * NANOSEC_PER_SEC,
        (nanos * frequency) / NANOSEC_PER_SEC as nat <= u64::MAX,
{
    let n = NANOSEC_PER_SEC as int;
    let longest = u64::MAX * n;
    lemma_div_lower_bound(longest, frequency as int, nanos as int);
    lemma_div_lower_bound((nanos * frequency) as int, n, u64::MAX + 1);
}

/// More ticks take no less time: of two values of the counter, the later one
/// is the longer uptime.
pub proof fn lemma_nanos_grow_with_ticks(earlier: nat, later: nat, frequency: nat)
    requires
        frequency > 0,
        earlier <= later,
    ensures
        ticks_to_nanos(earlier, frequency) <= ticks_to_nanos(later, frequency),
{
    let n = NANOSEC_PER_SEC as int;
    assert(earlier * n <= later * n) by (nonlinear_arith)
        requires
            earlier <= later,
            n > 0,
    ;
    lemma_div_is_ordered(earlier * n, later * n, frequency as int);
}

/// The resolution, which is the time of one tick, is more than nothing just
/// when the counter makes no more than a tick per nanosecond.
pub proof fn lemma_resolution_is_positive(frequency: nat)
    requires
        frequency > 0,
    ensures
        ticks_to_nanos(1, frequency) > 0 <==> frequency <= NANOSEC_PER_SEC,
{
    lemma_div_lower_bound(NANOSEC_PER_SEC as int, frequency as int, 1);
}

/// A time shorter than the resolution is no tick, and no error.
pub proof fn lemma_below_resolution_is_no_tick(nanos: nat, frequency: nat)
    requires
        frequency > 0,
        nanos < ticks_to_nanos(1, frequency),
    ensures
        nanos_to_ticks(nanos, frequency) == Some(0nat),
{
    let n = NANOSEC_PER_SEC as int;
    let f = frequency as int;
    lemma_nanos_grow_with_ticks(1, u64::MAX as nat, frequency);
    lemma_div_lower_bound(n, f, (nanos + 1) as int);
    assert((nanos + 1) * f == nanos * f + f) by (nonlinear_arith);
    lemma_div_lower_bound(nanos * f, n, 1);
}

/// A time is too long for the counter just when its ticks, before they are
/// rounded down, are more than `u64::MAX`. So a time whose whole ticks are
/// more than `u64::MAX` is too long.
pub proof fn lemma_too_long_is_none(nanos: nat, frequency: nat)
    requires
        frequency > 0,
    ensures
        nanos_to_ticks(nanos, frequency) is None <==> nanos * frequency > u64::MAX
            * NANOSEC_PER_SEC,
        (nanos * frequency) / NANOSEC_PER_SEC as nat > u64::MAX ==> nanos_to_ticks(
            nanos,
            frequency,
        ) is None,
{
    let n = NANOSEC_PER_SEC as int;
    let f = frequency as int;
    let longest = u64::MAX * n;
    lemma_div_lower_bound(longest, f, nanos as int);
    lemma_div_lower_bound(nanos * f, n, u64::MAX + 1);
}

/// Ticks that are turned into a time and back are the same ticks just when
/// they take a whole number of nanoseconds. Where they do not, the time was
/// rounded down, and falls a tick short on the way back.
pub proof fn lemma_round_trip(ticks: nat, frequency: nat)
    requires
        frequency > 0,
        ticks <= u64::MAX,
    ensures
        nanos_to_ticks(ticks_to_nanos(ticks, frequency), frequency) == Some(ticks) <==> (ticks
            * NANOSEC_PER_SEC) % (frequency as int) == 0,
{
    let n = NANOSEC_PER_SEC as int;
    let f = frequency as int;
    let t = ticks as int;
    let nanos = ticks_to_nanos(ticks, frequency) as int;
    lemma_fundamental_div_mod(t * n, f);
    lemma_nanos_grow_with_ticks(ticks, u64::MAX as nat, frequency);
    assert(f * nanos == nanos * f) by (nonlinear_arith);
    // nanos * f is t * n less the remainder: at most t * n, and equal where
    // the remainder is zero.
    lemma_div_lower_bound(nanos * f, n, t);
    lemma_div_lower_bound(nanos * f, n, t + 1);
    assert((t + 1) * n == t * n + n) by (nonlinear_arith);
}

/// Where a tick takes a whole number of nanoseconds, every value of the
/// counter comes back from the round trip.
pub proof fn lemma_round_trip_of_whole_nanosecond_ticks(ticks: nat, frequency: nat)
    requires
        frequency > 0,
        ticks <= u64::MAX,
        NANOSEC_PER_SEC as nat % frequency == 0,
    ensures
        nanos_to_ticks(ticks_to_nanos(ticks, frequency), frequency) == Some(ticks),
{
    let n = NANOSEC_PER_SEC as int;
    let f = frequency as int;
    let t = ticks as int;
    lemma_fundamental_div_mod(n, f);
    assert(t * n == (t * (n / f)) * f) by (nonlinear_arith)
        requires
            n == f * (n / f),
    ;
    lemma_mod_multiples_basic(t * (n / f), f);
    lemma_round_trip(ticks, frequency);
}

} // verus!
