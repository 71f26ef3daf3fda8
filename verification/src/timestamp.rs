//! Instants of UTC time, and the whole hours that lie between two of them.

use chrono::{DateTime, Utc};
use vstd::prelude::*;

verus! {

/// Nanoseconds in one second.
pub const NANOS_PER_SEC: u32 = 1_000_000_000;

/// Nanoseconds in one hour.
pub const NANOS_PER_HOUR: i64 = 3_600_000_000_000;

/// Seconds from the epoch to the earliest instant a [`Timestamp`] can hold,
/// the start of January 1 of the year 262144 BCE.
pub const MIN_SECS: i64 = -8_334_601_228_800;

/// Seconds from the epoch to the last second a [`Timestamp`] can hold,
/// the one that ends December 31 of the year 262142 CE. These are the bounds
/// of a chrono `DateTime<Utc>`.
pub const MAX_SECS: i64 = 8_210_266_876_799;

/// An instant of UTC time: whole seconds since 1970-01-01 00:00:00 UTC, not
/// counting leap seconds, and the nanoseconds that have passed within that
/// second.
///
/// Its view is the number of nanoseconds from the epoch to the instant.
#[derive(Clone, Copy, Debug)]
pub struct Timestamp {
    secs: i64,
    nanos: u32,
}

impl View for Timestamp {
    type V = int;

    closed spec fn view(&self) -> int {
        self.secs * NANOS_PER_SEC + self.nanos
    }
}

/// Whether seconds and nanoseconds name an instant that a [`Timestamp`] can hold.
pub open spec fn representable(secs: int, nanos: int) -> bool {
    MIN_SECS <= secs <= MAX_SECS && 0 <= nanos < NANOS_PER_SEC
}

/// The whole hours in a span of nanoseconds, rounded toward zero: a span of
/// ninety minutes holds one hour, and so does a span of minus ninety minutes,
/// counted as minus one.
pub open spec fn whole_hours(nanos: int) -> int {
    if nanos >= 0 {
        nanos / (NANOS_PER_HOUR as int)
    } else {
        -((-nanos) / (NANOS_PER_HOUR as int))
    }
}

/// Reads the system clock with `chrono::Utc::now` and hands back the seconds
/// since the epoch and the nanoseconds within the second of what it returned.
///
/// Nothing is claimed about which instant comes back, and nothing here is
/// proved. What is claimed holds of every instant that `Utc::now` can return:
/// it builds its result with `DateTime::from_timestamp`, which accepts no
/// seconds outside the representable range, from the time that has passed
/// since the epoch, whose nanoseconds are below one billion. `Utc::now` panics
/// where the system clock stands before the epoch or beyond the last
/// representable year.
#[verifier::external_body]
fn system_clock() -> (parts: (i64, u32))
    ensures
        representable(parts.0 as int, parts.1 as int),
{
    let now = Utc::now();
    (now.timestamp(), now.timestamp_subsec_nanos())
}

/// Subtracts two instants with chrono and counts the hours with
/// `TimeDelta::num_hours`.
///
/// The contract is taken from chrono, not proved. Both instants are rebuilt
/// with `DateTime::from_timestamp`, which accepts every representable pair of
/// seconds and nanoseconds, so neither `unwrap` fails. The difference of two
/// such `DateTime`s is the exact span between them, and `num_hours` is that
/// span in whole hours, rounded toward zero.
#[verifier::external_body]
fn hours_between(later: &Timestamp, earlier: &Timestamp) -> (hours: i64)
    requires
        later.is_valid(),
        earlier.is_valid(),
    ensures
        hours == whole_hours(later@ - earlier@),
{
    let later = DateTime::from_timestamp(later.secs, later.nanos).unwrap();
    let earlier = DateTime::from_timestamp(earlier.secs, earlier.nanos).unwrap();
    (later - earlier).num_hours()
}

impl Timestamp {
    /// Every timestamp names an instant that is representable.
    #[verifier::type_invariant]
    pub closed spec fn is_valid(self) -> bool {
        representable(self.secs as int, self.nanos as int)
    }

    /// The instant `nanos` nanoseconds after `secs` whole seconds since the
    /// epoch, or `None` where that pair is not representable.
    pub fn new(secs: i64, nanos: u32) -> (made: Option<Timestamp>)
        ensures
            made is Some <==> representable(secs as int, nanos as int),
            made matches Some(t) ==> t@ == secs * NANOS_PER_SEC + nanos,
    {
        if MIN_SECS <= secs && secs <= MAX_SECS && nanos < NANOS_PER_SEC {
            Some(Timestamp { secs, nanos })
        } else {
            None
        }
    }

    /// The current instant, as the system clock gives it.
    pub fn now() -> (t: Timestamp)
        ensures
            MIN_SECS * NANOS_PER_SEC <= t@ < (MAX_SECS + 1) * NANOS_PER_SEC,
    {
        let (secs, nanos) = system_clock();
        Timestamp { secs, nanos }
    }

    /// Whole seconds from the epoch to this instant, rounded down.
    pub fn seconds(&self) -> (secs: i64)
        ensures
            secs == self@ / (NANOS_PER_SEC as int),
            MIN_SECS <= secs <= MAX_SECS,
    {
        proof {
            use_type_invariant(self);
        }
        self.secs
    }

    /// Nanoseconds that have passed since the last whole second.
    pub fn subsec_nanos(&self) -> (nanos: u32)
        ensures
            nanos == self@ % (NANOS_PER_SEC as int),
    {
        proof {
            use_type_invariant(self);
        }
        self.nanos
    }

    /// The whole hours from `earlier` to this instant, rounded toward zero;
    /// negative where `earlier` is the later of the two.
    pub fn hours_since(&self, earlier: &Timestamp) -> (hours: i64)
        ensures
            hours == whole_hours(self@ - earlier@),
    {
        proof {
            use_type_invariant(self);
            use_type_invariant(earlier);
        }
        hours_between(self, earlier)
    }
}

} // verus!
