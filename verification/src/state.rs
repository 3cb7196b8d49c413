//! The shared simulation state: the simulated clock (a monotonically
//! non-decreasing microsecond counter advanced by the reporting side),
//! the session's one-time absolute-time offset, and the latest normalized
//! actuator command vector applied by the feedback side.
//!
//! The callers own the locking; these methods state how each step relates
//! the state after to the state before, so the critical sections stay
//! minimal and never span a blocking call.

use vstd::prelude::*;

verus! {

/// The number of actuator control channels.
pub const ACTUATOR_CHANNEL_COUNT: usize = 16;

/// Microseconds per second, for converting wall-clock durations.
pub const MICROS_PER_SECOND: u64 = 1000000;

/// The mutable simulated world shared between the reporting thread and
/// the feedback thread.
pub struct SimState {
    /// The simulated clock, in microseconds; never decreases.
    pub simulated_usecs: u64,
    /// Boot-time reference sent in the session's very first message; set
    /// once at construction, never mutated afterward.
    pub abstime_offset: u64,
    /// The latest normalized actuator command vector, one value per
    /// channel, in millionths of full scale.
    pub actuator_controls: Vec<i64>,
    /// The frame timestamp that carried the latest actuator command.
    pub last_actuator_timestamp: u64,
}

/// A state whose actuator vector has exactly one value per channel.
pub open spec fn spec_state_well_formed(s: SimState) -> bool {
    s.actuator_controls@.len() == ACTUATOR_CHANNEL_COUNT
}

impl SimState {
    /// A fresh state: clock at zero, no actuator command seen yet, all
    /// channels inactive.
    pub fn new(abstime_offset: u64) -> (s: Self)
        ensures
            spec_state_well_formed(s),
            s.simulated_usecs == 0,
            s.abstime_offset == abstime_offset,
            s.last_actuator_timestamp == 0,
            forall|i: int| 0 <= i < ACTUATOR_CHANNEL_COUNT ==> s.actuator_controls@[i] == 0,
    {
        let mut controls: Vec<i64> = Vec::new();
        let mut i: usize = 0;
        while i < ACTUATOR_CHANNEL_COUNT
            invariant
                i <= ACTUATOR_CHANNEL_COUNT,
                controls@.len() == i,
                forall|j: int| 0 <= j < i ==> controls@[j] == 0,
            decreases ACTUATOR_CHANNEL_COUNT - i,
        {
            controls.push(0i64);
            i = i + 1;
        }
        SimState {
            simulated_usecs: 0,
            abstime_offset,
            actuator_controls: controls,
            last_actuator_timestamp: 0,
        }
    }

    /// Microseconds of simulated time elapsed since `old_usecs`, clamped
    /// at zero.
    pub fn elapsed_since(&self, old_usecs: u64) -> (e: u64)
        ensures
            e == crate::cadence::spec_elapsed(self.simulated_usecs, old_usecs),
    {
        if self.simulated_usecs >= old_usecs {
            self.simulated_usecs - old_usecs
        } else {
            0
        }
    }

    /// Reads the simulated clock.
    pub fn get_simulated_usecs(&self) -> (t: u64)
        ensures
            t == self.simulated_usecs,
    {
        self.simulated_usecs
    }

    /// Records an actuator command: stores the normalized control vector
    /// and the frame timestamp that carried it. The clock and the
    /// absolute-time offset are untouched.
    pub fn update(&mut self, timestamp: u64, controls: Vec<i64>)
        requires
            controls@.len() == ACTUATOR_CHANNEL_COUNT,
        ensures
            spec_state_well_formed(*final(self)),
            final(self).actuator_controls == controls,
            final(self).last_actuator_timestamp == timestamp,
            final(self).simulated_usecs == old(self).simulated_usecs,
            final(self).abstime_offset == old(self).abstime_offset,
    {
        self.actuator_controls = controls;
        self.last_actuator_timestamp = timestamp;
    }
}

/// Whole microseconds in a duration given as seconds plus the
/// sub-second microsecond remainder.
pub fn micros_from_duration(secs: u64, subsec_micros: u32) -> (micros: u64)
    requires
        secs * MICROS_PER_SECOND + subsec_micros <= u64::MAX,
    ensures
        micros == secs * MICROS_PER_SECOND + subsec_micros,
{
    (secs * MICROS_PER_SECOND) + (subsec_micros as u64)
}

/// Advances the simulated clock to `now_micros`. The clock is driven
/// forward only: the caller supplies a timestamp no older than the
/// clock's current value, so the counter never decreases.
pub fn increment_simulated_time(state: &mut SimState, now_micros: u64)
    requires
        now_micros >= old(state).simulated_usecs,
    ensures
        final(state).simulated_usecs == now_micros,
        final(state).abstime_offset == old(state).abstime_offset,
        final(state).actuator_controls == old(state).actuator_controls,
        final(state).last_actuator_timestamp == old(state).last_actuator_timestamp,
{
    state.simulated_usecs = now_micros;
}

} // verus!
