//! The clock: the only place where the library learns what time it is.
//!
//! A [`Clock`] fixes an origin when it is made. A [`Reading`] is the time that
//! has passed since that origin. Instants that lie before the origin, such as
//! the start of a run restored from a persisted record, are kept by the timer
//! as signed nanosecond counts on the same time line.

use vstd::prelude::*;

verus! {

/// Nanoseconds per second.
pub const NANOS_PER_SEC: u64 = 1_000_000_000;

/// `std::time::Instant`, which Verus carries through without looking inside.
#[verifier::external_type_specification]
#[verifier::external_body]
pub struct ExInstant(std::time::Instant);

/// `Instant::now`: some instant; nothing is claimed about which.
pub assume_specification[ std::time::Instant::now ]() -> (instant: std::time::Instant)
;

/// `Instant::elapsed`: some duration; nothing is claimed about its length.
/// The standard library documents that it returns zero, and does not panic,
/// when the clock has gone backwards.
pub assume_specification[ std::time::Instant::elapsed ](instant: &std::time::Instant) -> (passed:
    std::time::Duration)
;

/// `Duration::as_secs`: the whole seconds of a duration; the contract says
/// nothing of the value.
pub assume_specification[ std::time::Duration::as_secs ](duration: &std::time::Duration) -> (secs:
    u64)
;

/// `Duration::subsec_nanos`: the fractional part of a duration in
/// nanoseconds. The standard library documents that it is always less than
/// one second, that is, less than one billion; the contract claims that and
/// nothing else of the value.
pub assume_specification[ std::time::Duration::subsec_nanos ](
    duration: &std::time::Duration,
) -> (nanos: u32)
    ensures
        nanos < 1_000_000_000,
;

/// The time that has passed since a clock's origin.
#[derive(Clone, Copy, Debug, PartialEq, Eq, Structural)]
pub struct Reading {
    /// Whole seconds since the origin.
    pub secs: u64,
    /// Nanoseconds on top of `secs`.
    pub subsec_nanos: u32,
}

/// A bound that the nanosecond count of every reading stays under.
pub open spec fn reading_limit() -> int {
    0x1_0000_0000_0000_0000int * 1_000_000_000 + 0x1_0000_0000
}

impl Reading {
    /// Whether the nanoseconds are a fraction of a second, as they are in
    /// every reading that a clock gives.
    pub open spec fn is_normal(self) -> bool {
        self.subsec_nanos < 1_000_000_000
    }

    /// The reading as a number of nanoseconds since the origin.
    pub open spec fn nanos(self) -> int {
        self.secs as int * 1_000_000_000 + self.subsec_nanos as int
    }

    /// A reading of `secs` seconds and `subsec_nanos` nanoseconds.
    pub fn new(secs: u64, subsec_nanos: u32) -> (reading: Reading)
        ensures
            reading.secs == secs,
            reading.subsec_nanos == subsec_nanos,
    {
        Reading { secs, subsec_nanos }
    }

    /// A reading of a whole number of seconds.
    pub fn from_secs(secs: u64) -> (reading: Reading)
        ensures
            reading.secs == secs,
            reading.subsec_nanos == 0,
            reading.nanos() == secs * 1_000_000_000,
    {
        Reading { secs, subsec_nanos: 0 }
    }

    /// The reading in nanoseconds.
    pub fn as_nanos(&self) -> (nanos: i128)
        ensures
            nanos == self.nanos(),
            0 <= nanos < reading_limit(),
    {
        let secs: i128 = self.secs as i128;
        let sub: i128 = self.subsec_nanos as i128;
        secs * 1_000_000_000 + sub
    }
}

/// Every reading lies between zero and [`reading_limit`].
pub proof fn lemma_reading_bounds(reading: Reading)
    ensures
        0 <= reading.nanos() < reading_limit(),
{
}

/// A monotonic clock with a fixed origin.
#[derive(Clone, Copy, Debug)]
pub struct Clock {
    origin: std::time::Instant,
}

impl Clock {
    /// A clock whose origin is the moment of the call.
    pub fn new() -> (clock: Clock) {
        Clock { origin: std::time::Instant::now() }
    }

    /// The time that has passed since the origin: whole seconds, and a
    /// fraction of a second in nanoseconds. Which time that is depends on
    /// the moment of the call.
    pub fn now(&self) -> (reading: Reading)
        ensures
            reading.is_normal(),
    {
        let passed = self.origin.elapsed();
        Reading { secs: passed.as_secs(), subsec_nanos: passed.subsec_nanos() }
    }
}

} // verus!
