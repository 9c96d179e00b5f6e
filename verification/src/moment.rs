//! Instants on the UTC time line, and what the calendar says of them.

use chrono::{DateTime, SecondsFormat};
use vstd::prelude::*;

verus! {

/// The first and the last second of the calendar, counted from 1970.
pub const FIRST_SECOND: i64 = -8_334_601_228_800;

pub const LAST_SECOND: i64 = 8_210_266_876_799;

/// Nanoseconds in a second.
pub const SECOND_NANOS: u32 = 1_000_000_000;

/// An instant: whole seconds since 1970 and nanoseconds into the second, inside
/// the calendar's range.
#[derive(Clone, Copy, Debug, PartialEq, Eq, Structural)]
pub struct Moment {
    seconds: i64,
    nanos: u32,
}

impl Moment {
    /// Whole seconds since 1970.
    pub closed spec fn spec_seconds(self) -> i64 {
        self.seconds
    }

    /// Nanoseconds into the second.
    pub closed spec fn spec_nanos(self) -> u32 {
        self.nanos
    }

    /// Nanoseconds since 1970.
    pub open spec fn total_nanos(self) -> int {
        self.spec_seconds() * SECOND_NANOS + self.spec_nanos()
    }

    #[verifier::type_invariant]
    spec fn is_in_calendar(self) -> bool {
        FIRST_SECOND <= self.seconds <= LAST_SECOND && self.nanos < SECOND_NANOS
    }

    /// The instant with these parts, where the calendar has it.
    pub fn new(seconds: i64, nanos: u32) -> (moment: Option<Moment>)
        ensures
            moment is Some <==> FIRST_SECOND <= seconds <= LAST_SECOND && nanos < SECOND_NANOS,
            moment matches Some(m) ==> m.spec_seconds() == seconds && m.spec_nanos() == nanos,
    {
        if FIRST_SECOND <= seconds && seconds <= LAST_SECOND && nanos < SECOND_NANOS {
            Some(Moment { seconds, nanos })
        } else {
            None
        }
    }

    /// Whole seconds since 1970.
    pub fn seconds(&self) -> (seconds: i64)
        ensures
            seconds == self.spec_seconds(),
    {
        self.seconds
    }

    /// Nanoseconds into the second.
    pub fn nanos(&self) -> (nanos: u32)
        ensures
            nanos == self.spec_nanos(),
            nanos < SECOND_NANOS,
    {
        proof {
            use_type_invariant(&*self);
        }
        self.nanos
    }

    /// Whether this instant is later than another.
    pub fn is_after(&self, other: &Moment) -> (later: bool)
        ensures
            later == (self.total_nanos() > other.total_nanos()),
    {
        proof {
            use_type_invariant(&*self);
            use_type_invariant(&*other);
        }
        self.seconds > other.seconds || (self.seconds == other.seconds && self.nanos > other.nanos)
    }

    /// Whole seconds from `earlier` to this instant; fractions are dropped.
    pub fn seconds_since(&self, earlier: &Moment) -> (elapsed: i64)
        ensures
            elapsed == whole_seconds(self.total_nanos() - earlier.total_nanos()),
    {
        proof {
            use_type_invariant(&*self);
            use_type_invariant(&*earlier);
        }
        calendar_seconds_between(self.seconds, self.nanos, earlier.seconds, earlier.nanos)
    }

    /// The instant as the calendar writes it to the second in UTC.
    pub fn rfc3339(&self) -> (text: String)
        ensures
            text@ == rfc3339_text(self.spec_seconds(), self.spec_nanos()),
    {
        proof {
            use_type_invariant(&*self);
        }
        calendar_rfc3339(self.seconds, self.nanos)
    }
}

/// The whole seconds in a span of nanoseconds, either sign.
pub open spec fn whole_seconds(nanos: int) -> int {
    if nanos >= 0 {
        nanos / (SECOND_NANOS as int)
    } else {
        -((-nanos) / (SECOND_NANOS as int))
    }
}

/// Whole seconds from the second instant to the first.
///
/// Calls `chrono::DateTime::from_timestamp`, which has every instant whose
/// parts are within the bounds required here, then `signed_duration_since` and
/// `TimeDelta::num_seconds`. The claim is that the count is the span's whole
/// seconds, with any fraction dropped towards zero.
#[verifier::external_body]
fn calendar_seconds_between(seconds: i64, nanos: u32, from_seconds: i64, from_nanos: u32) -> (elapsed:
    i64)
    requires
        FIRST_SECOND <= seconds <= LAST_SECOND,
        nanos < SECOND_NANOS,
        FIRST_SECOND <= from_seconds <= LAST_SECOND,
        from_nanos < SECOND_NANOS,
    ensures
        elapsed == whole_seconds(
            (seconds * SECOND_NANOS + nanos) - (from_seconds * SECOND_NANOS + from_nanos),
        ),
{
    let to = DateTime::from_timestamp(seconds, nanos).unwrap();
    let from = DateTime::from_timestamp(from_seconds, from_nanos).unwrap();
    to.signed_duration_since(from).num_seconds()
}

/// What `DateTime::to_rfc3339_opts` writes for the UTC instant with these
/// parts, to the second and with `Z` for the zone.
pub uninterp spec fn rfc3339_text(seconds: i64, nanos: u32) -> Seq<char>;

/// The instant as RFC 3339 writes it.
///
/// Calls `chrono::DateTime::to_rfc3339_opts` with `SecondsFormat::Secs` and the
/// `Z` suffix on the instant that `DateTime::from_timestamp` gives; the result
/// is that function's value on the two parts, and nothing more is claimed.
#[verifier::external_body]
fn calendar_rfc3339(seconds: i64, nanos: u32) -> (text: String)
    requires
        FIRST_SECOND <= seconds <= LAST_SECOND,
        nanos < SECOND_NANOS,
    ensures
        text@ == rfc3339_text(seconds, nanos),
{
    DateTime::from_timestamp(seconds, nanos).unwrap().to_rfc3339_opts(SecondsFormat::Secs, true)
}

/// The whole seconds in a span: as many as fit into it, with its sign.
pub proof fn law_whole_seconds_fit(nanos: int)
    ensures
        nanos >= 0 ==> 0 <= nanos - whole_seconds(nanos) * 1_000_000_000 < 1_000_000_000,
        nanos <= 0 ==> 0 <= whole_seconds(nanos) * 1_000_000_000 - nanos < 1_000_000_000,
        whole_seconds(-nanos) == -whole_seconds(nanos),
{
}

} // verus!
