//! Points in time and the day they fall on.

use vstd::prelude::*;

verus! {

/// Nanoseconds in one second.
pub const NANOS_PER_SECOND: u64 = 1_000_000_000;

/// Seconds in one day.
pub const SECONDS_PER_DAY: u64 = 86400;

/// A point in time, counted in nanoseconds since the Unix epoch.
#[derive(Clone, Copy, Debug, PartialEq, Eq, Structural)]
pub struct Timestamp {
    pub nanos: u64,
}

/// The start of the day that second `seconds` falls on, in seconds.
pub open spec fn day_start(seconds: int) -> int {
    seconds / 86400 * 86400
}

impl Timestamp {
    /// The whole seconds since the epoch; what is left of a second is dropped.
    pub open spec fn spec_seconds(self) -> int {
        self.nanos as int / 1_000_000_000
    }

    /// The timestamp's day: the start of that day, on the second.
    pub open spec fn spec_normalized(self) -> Timestamp {
        Timestamp { nanos: (day_start(self.spec_seconds()) * 1_000_000_000) as u64 }
    }

    /// Whether the timestamp is the first instant of a day.
    pub open spec fn is_date(self) -> bool {
        self.nanos as int % 86_400_000_000_000 == 0
    }

    pub fn from_nanos(nanos: u64) -> (t: Timestamp)
        ensures
            t.nanos == nanos,
    {
        Timestamp { nanos }
    }

    /// The timestamp `seconds` after the epoch, where that many nanoseconds
    /// can be counted in 64 bits.
    pub fn from_seconds(seconds: u64) -> (t: Timestamp)
        requires
            seconds * 1_000_000_000 <= u64::MAX,
        ensures
            t.nanos == seconds * 1_000_000_000,
            t.spec_seconds() == seconds,
    {
        Timestamp { nanos: seconds * NANOS_PER_SECOND }
    }

    pub fn nanos(&self) -> (n: u64)
        ensures
            n == self.nanos,
    {
        self.nanos
    }

    pub fn seconds(&self) -> (s: u64)
        ensures
            s == self.spec_seconds(),
    {
        self.nanos / NANOS_PER_SECOND
    }
}

/// Moves a timestamp back to midnight UTC of its day.
pub fn normalize_to_date(timestamp: Timestamp) -> (date: Timestamp)
    ensures
        date == timestamp.spec_normalized(),
        date.spec_seconds() == day_start(timestamp.spec_seconds()),
        date.spec_seconds() % 86400 == 0,
        date.nanos <= timestamp.nanos,
        timestamp.nanos - date.nanos < 86400 * 1_000_000_000,
{
    let seconds: u64 = timestamp.seconds();
    let days: u64 = seconds / SECONDS_PER_DAY;
    Timestamp::from_seconds(days * SECONDS_PER_DAY)
}

/// Normalizing is idempotent, and what it gives is a whole number of days:
/// a timestamp that was normalized once is not moved by a second pass, and
/// its seconds are a multiple of 86400.
pub proof fn lemma_normalize_idempotent(timestamp: Timestamp)
    ensures
        timestamp.spec_normalized().spec_normalized() == timestamp.spec_normalized(),
        timestamp.spec_normalized().spec_seconds() % 86400 == 0,
        timestamp.spec_normalized().is_date(),
{
    let seconds = timestamp.spec_seconds();
    let days = seconds / 86400;
    assert(day_start(seconds) == days * 86400);
    assert(days * 86400 * 1_000_000_000 <= timestamp.nanos);
    let once = timestamp.spec_normalized();
    assert(once.nanos == days * 86400 * 1_000_000_000);
    assert(once.spec_seconds() == days * 86400);
    assert(day_start(once.spec_seconds()) == days * 86400);
}

/// Two timestamps of one day have one date: the date depends on the day
/// alone.
pub proof fn lemma_same_day_same_date(a: Timestamp, b: Timestamp)
    requires
        a.spec_seconds() / 86400 == b.spec_seconds() / 86400,
    ensures
        a.spec_normalized() == b.spec_normalized(),
{
}

} // verus!
