//! Readings of the monotonic clock.

use tokio::time::Instant;
use vstd::prelude::*;

verus! {

/// A point in time of tokio's monotonic clock.
#[verifier::external_type_specification]
#[verifier::external_body]
pub struct ExInstant(tokio::time::Instant);

/// One more than the number of nanoseconds in the longest span of time that a
/// `Duration` can hold.
pub const NANOS_LIMIT: u128 = 18_446_744_073_709_551_616_000_000_000;

/// `tokio::time::Instant::now`: the present moment, of which nothing is claimed.
#[verifier::external_body]
fn present() -> (instant: Instant) {
    Instant::now()
}

/// `tokio::time::Instant::elapsed`: the time that has passed since `start`, in
/// nanoseconds. A `Duration` holds a 64-bit number of seconds and less than one
/// second of nanoseconds, which bounds the result; how much time has passed
/// rests on the clock, so no more than that bound is claimed.
#[verifier::external_body]
pub(crate) fn elapsed_nanos(start: &Instant) -> (nanos: u128)
    ensures
        nanos < NANOS_LIMIT,
{
    start.elapsed().as_nanos()
}

/// The nanoseconds from the reading `start` to the reading `now`.
pub open spec fn span(start: u128, now: u128) -> int {
    if now > start {
        now - start
    } else {
        0
    }
}

/// The nanoseconds from the reading `start` to the reading `now`.
pub fn nanos_between(start: u128, now: u128) -> (nanos: u128)
    ensures
        nanos == span(start, now),
{
    now.saturating_sub(start)
}

/// A clock that counts nanoseconds from the moment it was started, and never runs
/// backwards.
pub struct Clock {
    origin: Instant,
    latest: u128,
}

impl Clock {
    /// A reading is a span of time that a `Duration` can hold.
    #[verifier::type_invariant]
    spec fn in_range(self) -> bool {
        self.latest < NANOS_LIMIT
    }

    /// The moment from which the clock counts.
    pub closed spec fn origin(self) -> Instant {
        self.origin
    }

    /// The latest reading that was taken; zero before the first.
    pub closed spec fn latest(self) -> u128 {
        self.latest
    }

    /// Starts a clock, of which no reading has been taken.
    pub fn start() -> (clock: Clock)
        ensures
            clock.latest() == 0,
    {
        Clock { origin: present(), latest: 0 }
    }

    /// Takes a reading: the nanoseconds that have passed since the clock was
    /// started, and no fewer than at the reading before. The clock goes on
    /// counting from the same moment.
    pub fn now(&mut self) -> (nanos: u128)
        ensures
            old(self).latest() <= nanos < NANOS_LIMIT,
            final(self).latest() == nanos,
            final(self).origin() == old(self).origin(),
    {
        proof {
            use_type_invariant(&*self);
        }
        let elapsed: u128 = elapsed_nanos(&self.origin);
        if elapsed > self.latest {
            self.latest = elapsed;
        }
        self.latest
    }
}

/// The time between two readings is what has to be added to the first to come to
/// the second, and nothing when the second is not the later one.
pub proof fn span_leads_to_the_later_reading(start: u128, now: u128)
    ensures
        start <= now ==> start + span(start, now) == now,
        start >= now ==> span(start, now) == 0,
{
}

} // verus!
