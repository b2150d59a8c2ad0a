//! Instants on the UTC time line, held as plain integers.

use vstd::prelude::*;

verus! {

/// Nanoseconds in one second.
pub const NANOS_PER_SECOND: u32 = 1_000_000_000;

/// Seconds in one day.
pub const SECONDS_PER_DAY: i64 = 86_400;

/// An instant in UTC: whole seconds since 1970-01-01T00:00:00Z and the
/// nanoseconds past that second.
///
/// Instants are ordered by seconds first and nanoseconds second, which is
/// also the order that the derived comparison operators give.
#[derive(Clone, Copy, Debug, PartialEq, Eq, Structural, PartialOrd, Ord, Hash)]
pub struct Timestamp {
    pub secs: i64,
    pub nanos: u32,
}

/// What `chrono` gives for the UTC instant `secs`, `nanos` moved on by `days`
/// whole days, again as seconds and nanoseconds; `None` where `chrono` cannot
/// represent the instant, the span or their sum.
pub uninterp spec fn utc_plus_days(secs: i64, nanos: u32, days: i64) -> Option<(i64, u32)>;

impl Timestamp {
    /// `self` is no later than `other`.
    pub open spec fn at_or_before(self, other: Timestamp) -> bool {
        self.secs < other.secs || (self.secs == other.secs && self.nanos <= other.nanos)
    }

    /// The later of two instants.
    pub open spec fn latest(self, other: Timestamp) -> Timestamp {
        if self.at_or_before(other) {
            other
        } else {
            self
        }
    }

    /// `self` moved on by `days` whole days, where that can be represented.
    pub open spec fn plus_days(self, days: i64) -> Option<Timestamp> {
        match utc_plus_days(self.secs, self.nanos, days) {
            Some((secs, nanos)) => Some(Timestamp { secs, nanos }),
            None => None,
        }
    }

    /// The instant `secs` seconds and `nanos` nanoseconds after the epoch.
    pub fn new(secs: i64, nanos: u32) -> (t: Timestamp)
        ensures
            t == (Timestamp { secs, nanos }),
    {
        Timestamp { secs, nanos }
    }

    /// Whether `self` is no later than `other`.
    pub fn not_after(&self, other: &Timestamp) -> (r: bool)
        ensures
            r == self.at_or_before(*other),
    {
        self.secs < other.secs || (self.secs == other.secs && self.nanos <= other.nanos)
    }

    /// The current instant by the system clock.
    ///
    /// Trusted: reads `chrono::Utc::now` and takes the result apart with
    /// `DateTime::timestamp` and `DateTime::timestamp_subsec_nanos`. `chrono`
    /// builds the instant from the time elapsed since the epoch, so the
    /// seconds are not negative and the nanoseconds stay below one second.
    /// Nothing is claimed about how two readings relate: the system clock may
    /// be set back. (`chrono` gives up where the clock reads before 1970.)
    #[verifier::external_body]
    pub(crate) fn now() -> (now: Timestamp)
        ensures
            now.secs >= 0,
            now.nanos < NANOS_PER_SECOND,
    {
        let now = chrono::Utc::now();
        Timestamp { secs: now.timestamp(), nanos: now.timestamp_subsec_nanos() }
    }

    /// `self` moved on by `days` whole days.
    ///
    /// Trusted: builds the instant with `chrono::DateTime::from_timestamp`,
    /// the span with `chrono::TimeDelta::try_days`, adds them with
    /// `DateTime::checked_add_signed` and takes the sum apart again; each of
    /// the three gives `None` rather than fail. The result is a function of
    /// the arguments alone and is named `utc_plus_days`. Of an instant that
    /// is no leap second (nanoseconds below one second) `chrono` moves the
    /// seconds by 86 400 for each day and keeps the nanoseconds.
    #[verifier::external_body]
    pub(crate) fn checked_plus_days(self, days: i64) -> (moved: Option<Timestamp>)
        ensures
            (match moved {
                Some(t) => Some((t.secs, t.nanos)),
                None => None,
            }) == utc_plus_days(self.secs, self.nanos, days),
            moved matches Some(t) ==> (self.nanos < NANOS_PER_SECOND ==> t.secs == self.secs + days
                * SECONDS_PER_DAY && t.nanos == self.nanos),
    {
        let start = chrono::DateTime::from_timestamp(self.secs, self.nanos)?;
        let moved = start.checked_add_signed(chrono::TimeDelta::try_days(days)?)?;
        Some(Timestamp { secs: moved.timestamp(), nanos: moved.timestamp_subsec_nanos() })
    }

    /// The later of `self` and `other`.
    pub fn later_of(self, other: Timestamp) -> (t: Timestamp)
        ensures
            t == self.latest(other),
    {
        if self.not_after(&other) {
            other
        } else {
            self
        }
    }
}

} // verus!
