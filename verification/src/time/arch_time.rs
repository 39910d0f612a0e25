//! The generic timer of the architecture.
//!
//! The timer is a counter that ticks at a fixed rate from power-on. The rate
//! is found at boot and handed to this module as a [`CounterFrequency`].

use crate::time::conversion::{
    lemma_below_resolution_is_no_tick, lemma_resolution_is_positive, lemma_split_seconds,
    lemma_ticks_fit, nanos_to_ticks, ticks_to_nanos,
};
use crate::time::duration::{duration_nanos, NANOSEC_PER_SEC};
use core::ops::Add;
use core::time::Duration;
use vstd::prelude::*;
use vstd::std_specs::ops::AddSpec;

verus! {

/// The ticks that the counter makes in a second. Never zero.
#[derive(Clone, Copy, Debug)]
pub struct CounterFrequency {
    hertz: u32,
}

impl View for CounterFrequency {
    type V = nat;

    closed spec fn view(&self) -> nat {
        self.hertz as nat
    }
}

impl CounterFrequency {
    #[verifier::type_invariant]
    spec fn is_positive(self) -> bool {
        self.hertz > 0
    }

    /// The frequency of `hertz` ticks per second, if there is one: a counter
    /// does not tick zero times a second.
    pub fn new(hertz: u32) -> (frequency: Option<Self>)
        ensures
            hertz == 0 <==> frequency is None,
            frequency matches Some(f) ==> f@ == hertz,
    {
        if hertz == 0 {
            None
        } else {
            Some(CounterFrequency { hertz })
        }
    }

    /// The ticks per second.
    pub fn get(&self) -> (hertz: u32)
        ensures
            hertz == self@,
            hertz > 0,
    {
        proof {
            use_type_invariant(self);
        }
        self.hertz
    }
}

/// A value of the counter: ticks since power-on, or a number of ticks.
#[derive(Clone, Copy, Debug, PartialEq, Eq, Structural)]
pub struct GenericTimerCounterValue(pub u64);

impl GenericTimerCounterValue {
    /// The last value before the counter wraps around.
    pub fn max() -> (max: Self)
        ensures
            max.0 == u64::MAX,
    {
        GenericTimerCounterValue(u64::MAX)
    }

    /// The time that this many ticks take. What is left of a nanosecond is
    /// dropped.
    pub fn into_duration(self, frequency: CounterFrequency) -> (duration: Duration)
        ensures
            duration_nanos(duration) == ticks_to_nanos(self.0 as nat, frequency@),
    {
        if self.0 == 0 {
            proof {
                use_type_invariant(&frequency);
                lemma_split_seconds(0, frequency@);
            }
            return Duration::new(0, 0);
        }
        let frequency: u64 = frequency.get() as u64;
        let secs = self.0 / frequency;
        let sub_second_counter_value = self.0 % frequency;
        proof {
            lemma_split_seconds(self.0 as nat, frequency as nat);
        }
        let nanos = (sub_second_counter_value * NANOSEC_PER_SEC / frequency) as u32;
        Duration::new(secs, nanos)
    }

    /// The ticks that pass in `duration`. What is left of a tick is dropped,
    /// so a duration shorter than one tick is no tick at all. A duration
    /// longer than the counter can measure is an error.
    pub fn try_from_duration(duration: Duration, frequency: CounterFrequency) -> (counter_value:
        Result<Self, &'static str>)
        ensures
            match nanos_to_ticks(duration_nanos(duration), frequency@) {
                Some(ticks) => ticks <= u64::MAX && counter_value == Ok::<Self, &'static str>(
                    GenericTimerCounterValue(ticks as u64),
                ),
                None => counter_value matches Err(msg) && msg@
                    == "Conversion error. Duration too big!"@,
            },
            duration_nanos(duration) < ticks_to_nanos(1, frequency@) ==> counter_value == Ok::<
                Self,
                &'static str,
            >(GenericTimerCounterValue(0)),
    {
        let nanos: u128 = duration.as_nanos();
        if nanos < resolution(frequency).as_nanos() {
            proof {
                use_type_invariant(&frequency);
                lemma_below_resolution_is_no_tick(nanos as nat, frequency@);
            }
            return Ok(GenericTimerCounterValue(0));
        }
        if nanos > max_duration(frequency).as_nanos() {
            return Err("Conversion error. Duration too big!");
        }
        let frequency: u128 = frequency.get() as u128;
        proof {
            lemma_ticks_fit(nanos as nat, frequency as nat);
        }
        let counter_value = nanos * frequency / (NANOSEC_PER_SEC as u128);
        Ok(GenericTimerCounterValue(counter_value as u64))
    }
}

/// The longest time that the counter can measure.
pub fn max_duration(frequency: CounterFrequency) -> (duration: Duration)
    ensures
        duration_nanos(duration) == ticks_to_nanos(u64::MAX as nat, frequency@),
{
    GenericTimerCounterValue::max().into_duration(frequency)
}

/// The timer's resolution: the time that one tick takes. It is more than
/// nothing unless the counter makes more than a tick per nanosecond.
pub fn resolution(frequency: CounterFrequency) -> (duration: Duration)
    ensures
        duration_nanos(duration) == ticks_to_nanos(1, frequency@),
        duration_nanos(duration) > 0 <==> frequency@ <= NANOSEC_PER_SEC,
{
    proof {
        use_type_invariant(&frequency);
        lemma_resolution_is_positive(frequency@);
    }
    GenericTimerCounterValue(1).into_duration(frequency)
}

impl Add for GenericTimerCounterValue {
    type Output = Self;

    /// The counter wraps around, and so does the sum.
    fn add(self, other: Self) -> (sum: Self) {
        GenericTimerCounterValue(self.0.wrapping_add(other.0))
    }
}

impl vstd::std_specs::ops::AddSpecImpl for GenericTimerCounterValue {
    open spec fn obeys_add_spec() -> bool {
        true
    }

    open spec fn add_req(self, other: Self) -> bool {
        true
    }

    open spec fn add_spec(self, other: Self) -> Self {
        GenericTimerCounterValue(((self.0 + other.0) % 0x1_0000_0000_0000_0000) as u64)
    }
}

/// A busy wait that has begun: the counter value that it began at, and the
/// one that ends it.
///
/// The wait itself is the caller's loop: it reads the counter for as long as
/// [`SpinWait::is_pending`] says so of what it read.
#[derive(Clone, Copy, Debug, PartialEq, Eq, Structural)]
pub struct SpinWait {
    /// The counter when the wait began.
    pub start: GenericTimerCounterValue,
    /// The first counter value that is late enough.
    pub target: GenericTimerCounterValue,
}

impl SpinWait {
    /// Whether the wait goes on after `counter_value` has been read.
    pub open spec fn pending(self, counter_value: GenericTimerCounterValue) -> bool {
        counter_value.0 < self.target.0
    }

    /// Whether the wait goes on after `counter_value` has been read: it does
    /// while the counter is short of the target.
    pub fn is_pending(&self, counter_value: GenericTimerCounterValue) -> (pending: bool)
        ensures
            pending == self.pending(counter_value),
    {
        counter_value.0 < self.target.0
    }
}

/// A wait whose target did not wrap around goes on until the counter has
/// advanced by all the ticks of the wait.
pub proof fn lemma_wait_lasts(
    wait: SpinWait,
    ticks: GenericTimerCounterValue,
    counter_value: GenericTimerCounterValue,
)
    requires
        wait.target == wait.start.add_spec(ticks),
        wait.start.0 + ticks.0 <= u64::MAX,
        !wait.pending(counter_value),
    ensures
        counter_value.0 - wait.start.0 >= ticks.0,
{
}

/// Uptime since power-on, where `counter_value` was read from the counter:
/// the time that so many ticks take.
pub fn uptime(counter_value: GenericTimerCounterValue, frequency: CounterFrequency) -> (duration:
    Duration)
    ensures
        duration_nanos(duration) == ticks_to_nanos(counter_value.0 as nat, frequency@),
{
    counter_value.into_duration(frequency)
}

/// Begins a busy wait of `duration`, where `curr_counter_value` was read from
/// the counter just now.
///
/// The target is the sum of the counter value and the ticks of the duration,
/// and wraps around as the counter does. A duration that is longer than the
/// counter can measure begins no wait: the error says so, and the caller goes
/// on at once.
pub fn spin_for(
    curr_counter_value: GenericTimerCounterValue,
    duration: Duration,
    frequency: CounterFrequency,
) -> (wait: Result<SpinWait, &'static str>)
    ensures
        match nanos_to_ticks(duration_nanos(duration), frequency@) {
            Some(ticks) => ticks <= u64::MAX && wait == Ok::<SpinWait, &'static str>(
                SpinWait {
                    start: curr_counter_value,
                    target: curr_counter_value.add_spec(GenericTimerCounterValue(ticks as u64)),
                },
            ),
            None => wait matches Err(msg) && msg@ == "Conversion error. Duration too big!"@,
        },
{
    let counter_value_delta = match GenericTimerCounterValue::try_from_duration(
        duration,
        frequency,
    ) {
        Err(msg) => {
            return Err(msg);
        },
        Ok(val) => val,
    };
    let counter_value_target = curr_counter_value + counter_value_delta;
    Ok(SpinWait { start: curr_counter_value, target: counter_value_target })
}

} // verus!
