//! Points in time, and their text.
use chrono::{DateTime, Utc};
use vstd::prelude::*;

verus! {

/// The first second of the year -262143.
pub const FIRST_SECOND: i64 = -8334601228800;

/// The last second of the year 262142.
pub const LAST_SECOND: i64 = 8210266876799;

/// `secs` seconds after 1970-01-01T00:00:00Z and `nanos` nanoseconds are a point
/// in time of the calendar. From the billionth nanosecond on it lies in a leap
/// second, which only the last second of a minute can have.
pub open spec fn on_calendar(secs: i64, nanos: u32) -> bool {
    &&& FIRST_SECOND <= secs <= LAST_SECOND
    &&& nanos < 2_000_000_000
    &&& nanos >= 1_000_000_000 ==> (secs as int) % 60 == 59
}

/// The RFC 3339 text, in UTC, of the point in time `secs` and `nanos`.
pub uninterp spec fn rfc3339_text(secs: i64, nanos: u32) -> Seq<char>;

/// `chrono::DateTime::<Utc>::to_rfc3339`, on the point in time that
/// `DateTime::from_timestamp` makes of `secs` and `nanos`. Trusted: every point
/// on the calendar makes one, and its text depends on the two numbers alone.
#[verifier::external_body]
fn to_rfc3339(secs: i64, nanos: u32) -> (text: String)
    requires
        on_calendar(secs, nanos),
    ensures
        text@ == rfc3339_text(secs, nanos),
{
    DateTime::<Utc>::from_timestamp(secs, nanos).unwrap().to_rfc3339()
}

/// `chrono::Utc::now`, as seconds and nanoseconds. Trusted: the clock shows a
/// point on the calendar that lies in no leap second. A system clock set before
/// 1970, or past the end of the calendar, makes the call panic; which point it
/// shows is left unsaid.
#[verifier::external_body]
fn utc_now() -> (now: (i64, u32))
    ensures
        on_calendar(now.0, now.1),
        now.1 < 1_000_000_000,
{
    let now = Utc::now();
    (now.timestamp(), now.timestamp_subsec_nanos())
}

/// A point in time, in UTC.
#[derive(Clone, Copy, Debug, PartialEq, Eq)]
pub struct Timestamp {
    secs: i64,
    nanos: u32,
}

impl Timestamp {
    #[verifier::type_invariant]
    spec fn well_formed(&self) -> bool {
        on_calendar(self.secs, self.nanos)
    }

    /// The seconds since 1970-01-01T00:00:00Z.
    pub closed spec fn spec_secs(self) -> i64 {
        self.secs
    }

    /// The nanoseconds since that second.
    pub closed spec fn spec_nanos(self) -> u32 {
        self.nanos
    }

    /// The text of this point in time.
    pub open spec fn spec_rfc3339(self) -> Seq<char> {
        rfc3339_text(self.spec_secs(), self.spec_nanos())
    }

    /// The point in time `secs` seconds after 1970-01-01T00:00:00Z and `nanos`
    /// nanoseconds, where the calendar has it.
    pub fn new(secs: i64, nanos: u32) -> (timestamp: Option<Timestamp>)
        ensures
            timestamp is Some == on_calendar(secs, nanos),
            timestamp is Some ==> timestamp->0.spec_secs() == secs && timestamp->0.spec_nanos()
                == nanos,
    {
        if secs < FIRST_SECOND || secs > LAST_SECOND || nanos >= 2_000_000_000 {
            return None;
        }
        // The calendar starts at a full minute.
        let second: u64 = (secs - FIRST_SECOND) as u64 % 60;
        if nanos >= 1_000_000_000 && second != 59 {
            return None;
        }
        Some(Timestamp { secs, nanos })
    }

    /// The present, which the clock never shows as lying in a leap second.
    pub fn now() -> (timestamp: Timestamp)
        ensures
            on_calendar(timestamp.spec_secs(), timestamp.spec_nanos()),
            timestamp.spec_nanos() < 1_000_000_000,
    {
        let (secs, nanos) = utc_now();
        Timestamp { secs, nanos }
    }

    /// The RFC 3339 text of this point in time.
    pub fn to_rfc3339(&self) -> (text: String)
        ensures
            text@ == self.spec_rfc3339(),
    {
        proof {
            use_type_invariant(self);
        }
        to_rfc3339(self.secs, self.nanos)
    }
}

} // verus!
