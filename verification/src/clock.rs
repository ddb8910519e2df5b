//! Wall-clock instants, counted in nanoseconds since the Unix epoch.

use core::time::Duration;
use vstd::prelude::*;

verus! {

/// Nanoseconds in a second.
pub const NANOS_PER_SEC: u128 = 1_000_000_000;

/// `SystemTime::elapsed` of the Unix epoch: the time that has passed since,
/// or nothing where the clock stands before the epoch. Nothing is known of
/// the reading: two readings may differ either way.
#[verifier::external_body]
fn unix_epoch_elapsed() -> (elapsed: Option<Duration>) {
    std::time::UNIX_EPOCH.elapsed().ok()
}

/// `Duration::as_nanos`: the whole nanoseconds in a span of time.
#[verifier::external_body]
fn duration_nanos(span: &Duration) -> (nanos: u128) {
    span.as_nanos()
}

/// A wall-clock instant.
#[derive(Debug, Clone, Copy, PartialEq, Eq, Structural)]
pub struct Timestamp {
    /// Nanoseconds since the Unix epoch.
    pub nanos: u128,
}

/// The instant `secs` seconds after `at`, or the last instant there is where
/// that lies beyond it.
pub open spec fn instant_after(at: Timestamp, secs: u64) -> Timestamp {
    if at.nanos + secs * NANOS_PER_SEC <= u128::MAX {
        Timestamp { nanos: (at.nanos + secs * NANOS_PER_SEC) as u128 }
    } else {
        Timestamp { nanos: u128::MAX }
    }
}

/// Whole seconds between the epoch and `at`, or 0 where they do not fit the
/// 32 bits in which an expiry is reported.
pub open spec fn epoch_seconds_u32(at: Timestamp) -> u32 {
    if at.nanos / NANOS_PER_SEC <= u32::MAX {
        (at.nanos / NANOS_PER_SEC) as u32
    } else {
        0
    }
}

/// The instant that a reading of the clock stands for: so many nanoseconds
/// after the epoch, and the epoch itself where the clock stood before it.
pub open spec fn instant_of(reading: Option<u128>) -> Timestamp {
    match reading {
        Some(nanos) => Timestamp { nanos },
        None => Timestamp { nanos: 0 },
    }
}

impl Timestamp {
    /// The instant that a reading of the clock stands for: `reading`
    /// nanoseconds after the epoch, and the epoch itself where there is no
    /// reading because the clock stood before it.
    pub fn from_reading(reading: Option<u128>) -> (at: Timestamp)
        ensures
            at == instant_of(reading),
    {
        match reading {
            Some(nanos) => Timestamp { nanos },
            None => Timestamp { nanos: 0 },
        }
    }

    /// The current reading of the system clock; the epoch itself where the
    /// clock stands before it.
    pub fn now() -> Timestamp {
        let reading = match unix_epoch_elapsed() {
            Some(elapsed) => Some(duration_nanos(&elapsed)),
            None => None,
        };
        Timestamp::from_reading(reading)
    }

    /// The instant `secs` seconds after the epoch.
    pub fn from_secs(secs: u64) -> (at: Timestamp)
        ensures
            at.nanos == secs * NANOS_PER_SEC,
    {
        let wide: u128 = secs as u128;
        Timestamp { nanos: wide * NANOS_PER_SEC }
    }

    /// The instant `secs` seconds after this one, saturating at the last
    /// instant there is.
    pub fn plus_secs(self, secs: u64) -> (at: Timestamp)
        ensures
            at == instant_after(self, secs),
    {
        let wide: u128 = secs as u128;
        let span: u128 = wide * NANOS_PER_SEC;
        match self.nanos.checked_add(span) {
            Some(nanos) => Timestamp { nanos },
            None => Timestamp { nanos: u128::MAX },
        }
    }

    /// Whether this instant lies strictly after `other`.
    pub fn is_after(self, other: Timestamp) -> (after: bool)
        ensures
            after == (self.nanos > other.nanos),
    {
        self.nanos > other.nanos
    }

    /// Whole seconds since the epoch as reported to clients: 0 where they do
    /// not fit 32 bits.
    pub fn epoch_seconds_u32(self) -> (secs: u32)
        ensures
            secs == epoch_seconds_u32(self),
    {
        let secs: u128 = self.nanos / NANOS_PER_SEC;
        if secs <= 0xffff_ffff {
            secs as u32
        } else {
            0
        }
    }
}

} // verus!
