//! Readings of the two clocks that the appliance manager goes by.

use vstd::prelude::*;

verus! {

/// Nanoseconds in a second.
pub const NANOS_PER_SECOND: u64 = 1_000_000_000;

/// A point in time: whole seconds since 1970-01-01 00:00:00 UTC, leap
/// seconds not counted, and the nanoseconds since that second began.
#[derive(Debug, Clone, Copy, PartialEq, Eq, Structural)]
pub struct Timestamp {
    pub secs: i64,
    pub nanos: u32,
}

impl Timestamp {
    /// 1970-01-01 00:00:00 UTC.
    pub open spec fn epoch() -> Timestamp {
        Timestamp { secs: 0, nanos: 0 }
    }

    /// Nanoseconds from the epoch to this point in time.
    pub open spec fn since_epoch(self) -> int {
        self.secs * NANOS_PER_SECOND + self.nanos
    }

    /// Nanoseconds from `earlier` to this point in time; negative where
    /// `earlier` is the later of the two.
    pub open spec fn since(self, earlier: Timestamp) -> int {
        self.since_epoch() - earlier.since_epoch()
    }

    /// 1970-01-01 00:00:00 UTC.
    pub fn unix_epoch() -> (epoch: Timestamp)
        ensures
            epoch == Timestamp::epoch(),
    {
        Timestamp { secs: 0, nanos: 0 }
    }

    /// Whether less than `seconds` seconds lie between `earlier` and this
    /// point in time. This holds of every `earlier` that is in fact later.
    pub fn within_seconds_of(&self, earlier: &Timestamp, seconds: u32) -> (within: bool)
        ensures
            within == (self.since(*earlier) < seconds * NANOS_PER_SECOND),
    {
        let seconds_apart: i128 = self.secs as i128 - earlier.secs as i128;
        let nanos_apart: i128 = self.nanos as i128 - earlier.nanos as i128;
        let apart: i128 = seconds_apart * 1_000_000_000 + nanos_apart;
        apart < seconds as i128 * 1_000_000_000
    }
}

/// What the clocks show at one moment.
#[derive(Debug, Clone, Copy, PartialEq, Eq, Structural)]
pub struct Clock {
    /// Nanoseconds on a clock that never runs backwards, counted from a
    /// start that stays the same while the process lives.
    pub monotonic: u64,
    /// Date and time.
    pub utc: Timestamp,
}

/// Reads `chrono::Utc::now` and hands out what `DateTime::timestamp` and
/// `DateTime::timestamp_subsec_nanos` give for it. The reading is that of
/// the system clock, so nothing is promised of it; `Utc::now` gives up
/// where that clock stands before 1970.
#[verifier::external_body]
pub(crate) fn utc_now() -> (now: Timestamp) {
    let now = chrono::Utc::now();
    Timestamp { secs: now.timestamp(), nanos: now.timestamp_subsec_nanos() }
}

} // verus!
