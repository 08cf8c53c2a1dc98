//! The monotonic clock that the timer and the overlay read.

use std::time::Instant;
use vstd::prelude::*;

verus! {

/// Nanoseconds in one second.
pub const NANOS_PER_SECOND: u128 = 1_000_000_000;

/// Nanoseconds in one minute.
pub const NANOS_PER_MINUTE: u128 = 60_000_000_000;

/// The length of `minutes` whole minutes, in nanoseconds.
pub open spec fn minutes(minutes: nat) -> nat {
    minutes * 60_000_000_000
}

/// The length of `seconds` whole seconds, in nanoseconds.
pub open spec fn seconds(seconds: nat) -> nat {
    seconds * 1_000_000_000
}

/// `std::time::Instant`, carried as an opaque value.
#[verifier::external_type_specification]
#[verifier::external_body]
pub struct ExInstant(Instant);

/// A stopwatch started when it was made. Its readings are the timestamps that
/// the rest of the library works with: nanoseconds since the start.
#[derive(Clone, Copy)]
pub(crate) struct Clock {
    origin: Instant,
}

impl Clock {
    /// Starts a stopwatch at the present moment, by `Instant::now`.
    /// Nothing is claimed of the moment.
    #[verifier::external_body]
    pub(crate) fn start() -> (clock: Clock) {
        Clock { origin: Instant::now() }
    }

    /// Reads the stopwatch, by `Instant::elapsed`, as whole nanoseconds.
    /// Nothing is claimed of the reading: callers are verified for every
    /// value of it.
    #[verifier::external_body]
    pub(crate) fn now(&self) -> (nanos: u128) {
        self.origin.elapsed().as_nanos()
    }
}

/// Converts whole minutes to nanoseconds.
pub fn minutes_to_nanos(count: u32) -> (nanos: u128)
    ensures
        nanos == minutes(count as nat),
{
    count as u128 * NANOS_PER_MINUTE
}

/// Converts whole seconds to nanoseconds.
pub fn seconds_to_nanos(count: u64) -> (nanos: u128)
    ensures
        nanos == seconds(count as nat),
{
    count as u128 * NANOS_PER_SECOND
}

} // verus!
