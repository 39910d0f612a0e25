//! Timer primitives.

pub mod arch_time;
pub mod conversion;
pub mod duration;

use crate::time::arch_time::{CounterFrequency, GenericTimerCounterValue, SpinWait};
use crate::time::conversion::{nanos_to_ticks, ticks_to_nanos};
use crate::time::duration::{duration_nanos, NANOSEC_PER_SEC};
use core::time::Duration;
use vstd::prelude::*;
use vstd::std_specs::ops::AddSpec;

verus! {

/// Provides time management functions.
///
/// The manager knows the counter's frequency. The counter itself is read by
/// the caller, who hands over what was read.
#[derive(Clone, Copy, Debug)]
pub struct TimeManager {
    frequency: CounterFrequency,
}

impl TimeManager {
    /// The ticks that the counter makes in a second.
    pub closed spec fn frequency(&self) -> nat {
        self.frequency@
    }

    /// A manager for a counter of the given frequency.
    pub fn new(frequency: CounterFrequency) -> (manager: Self)
        ensures
            manager.frequency() == frequency@,
    {
        TimeManager { frequency }
    }

    /// The timer's resolution: the time that one tick takes. It is more than
    /// nothing unless the counter makes more than a tick per nanosecond.
    pub fn resolution(&self) -> (duration: Duration)
        ensures
            duration_nanos(duration) == ticks_to_nanos(1, self.frequency()),
            duration_nanos(duration) > 0 <==> self.frequency() <= NANOSEC_PER_SEC,
    {
        arch_time::resolution(self.frequency)
    }

    /// The uptime since power-on, where `counter_value` was read from the
    /// counter.
    pub fn uptime(&self, counter_value: GenericTimerCounterValue) -> (duration: Duration)
        ensures
            duration_nanos(duration) == ticks_to_nanos(counter_value.0 as nat, self.frequency()),
    {
        arch_time::uptime(counter_value, self.frequency)
    }

    /// Begins a busy wait of `duration`, where `curr_counter_value` was read
    /// from the counter just now. A duration that is longer than the counter
    /// can measure begins no wait.
    pub fn spin_for(&self, curr_counter_value: GenericTimerCounterValue, duration: Duration) -> (wait:
        Result<SpinWait, &'static str>)
        ensures
            match nanos_to_ticks(duration_nanos(duration), self.frequency()) {
                Some(ticks) => ticks <= u64::MAX && wait == Ok::<SpinWait, &'static str>(
                    SpinWait {
                        start: curr_counter_value,
                        target: curr_counter_value.add_spec(GenericTimerCounterValue(ticks as u64)),
                    },
                ),
                None => wait matches Err(msg) && msg@ == "Conversion error. Duration too big!"@,
            },
    {
        arch_time::spin_for(curr_counter_value, duration, self.frequency)
    }
}

} // verus!
