use std::time::Duration;
use std::time::Instant;
use vstd::prelude::*;

verus! {

/// `std::time::Instant`, a reading of the monotonic clock of the machine.
/// Nothing is known of what a value holds.
#[verifier::external_type_specification]
#[verifier::external_body]
pub struct ExInstant(Instant);

/// `std::time::Instant::now` reads the clock.  Nothing is claimed of the
/// reading: two calls may give any two instants.
pub assume_specification[ Instant::now ]() -> (reading: Instant);

/// `std::time::Instant::saturating_duration_since` gives the time from
/// `earlier` to `later`, or zero where `earlier` is the later of the two.
/// Nothing is claimed of the duration, since nothing is known of the
/// instants; the call returns for every pair of them.
pub assume_specification[ Instant::saturating_duration_since ](later: &Instant, earlier: Instant) -> (elapsed:
    Duration);

/// `std::time::Duration::as_micros` gives the whole microseconds in a
/// duration.  Nothing is claimed of the number, since nothing is known of
/// the duration.
pub assume_specification[ Duration::as_micros ](duration: &Duration) -> (micros: u128);

/// The clock of a pool: it counts the microseconds since it was started.
pub struct Clock {
    origin: Instant,
}

impl Clock {
    /// Starts a clock at the present instant.
    pub fn start() -> (clock: Clock) {
        Clock { origin: Instant::now() }
    }

    /// The microseconds since the clock was started, as [`reading_of`] makes
    /// a reading of them.  How many have passed only the machine tells, so
    /// nothing is promised of the reading.
    pub fn now(&self) -> (micros: u64) {
        let reading = Instant::now();
        let elapsed = reading.saturating_duration_since(self.origin);
        reading_of_micros(elapsed.as_micros())
    }
}

/// What a clock shows when `micros` whole microseconds have passed since it
/// was started: `micros`, or `u64::MAX` where that is more than a reading
/// can hold.
pub open spec fn reading_of(micros: u128) -> u64 {
    if micros > u64::MAX {
        u64::MAX
    } else {
        micros as u64
    }
}

/// Computes [`reading_of`]: the step from the time that the machine reports
/// to the reading of a clock.
pub fn reading_of_micros(micros: u128) -> (reading: u64)
    ensures
        reading == reading_of(micros),
{
    if micros > 0xffff_ffff_ffff_ffffu128 {
        0xffff_ffff_ffff_ffffu64
    } else {
        micros as u64
    }
}

} // verus!
