use vstd::prelude::*;
use chrono::DateTime;
use crate::error::Error;

verus! {

/// A point in time as seconds and nanoseconds since the UNIX epoch
/// (the shape of `google.protobuf.Timestamp`).
#[derive(Debug, Clone, Copy, PartialEq, Eq)]
pub struct Timestamp {
    pub seconds: i64,
    pub nanos: i32,
}

/// Whether chrono can build a UTC date-time from these seconds and nanoseconds:
/// the seconds lie between the first second of year -262143 and the last
/// second of year 262142, the nanoseconds are below two seconds, and a
/// nanosecond count of one second or more (a leap second) only follows
/// the 59th second of a minute.
pub open spec fn utc_representable(seconds: int, nanos: int) -> bool {
    &&& -8_334_601_228_800 <= seconds <= 8_210_266_876_799
    &&& 0 <= nanos < 2_000_000_000
    &&& nanos >= 1_000_000_000 ==> seconds % 60 == 59
}

/// The nanoseconds of a timestamp as chrono receives them (reinterpreted as unsigned).
pub open spec fn chrono_nanos(ts: Timestamp) -> u32 {
    ts.nanos as u32
}

/// Whether a timestamp can be converted to a UTC date-time.
pub open spec fn timestamp_representable(ts: Timestamp) -> bool {
    utc_representable(ts.seconds as int, chrono_nanos(ts) as int)
}

/// Whether chrono's `DateTime::from_timestamp(seconds, nanos)` builds a UTC
/// date-time (returns `Some`). Trusted: it does exactly when `utc_representable`
/// holds; chrono's source checks the day number against the supported years,
/// the second of the day, and the nanoseconds (below two seconds, and at least
/// one second only in the 59th second of a minute). The date-time itself is not
/// read back: a `UtcTime` keeps the seconds and nanoseconds that built it.
#[verifier::external_body]
fn chrono_accepts_timestamp(seconds: i64, nanos: u32) -> (r: bool)
    ensures
        r == utc_representable(seconds as int, nanos as int),
{
    DateTime::from_timestamp(seconds, nanos).is_some()
}

/// A UTC instant that chrono accepts: seconds since the UNIX epoch and the
/// nanoseconds within that second.
#[derive(Debug, Clone, Copy, PartialEq, Eq)]
pub struct UtcTime {
    seconds: i64,
    nanos: u32,
}

impl UtcTime {
    #[verifier::type_invariant]
    spec fn inv(self) -> bool {
        utc_representable(self.seconds as int, self.nanos as int)
    }

    /// The seconds since the UNIX epoch.
    pub closed spec fn spec_seconds(self) -> int {
        self.seconds as int
    }

    /// The nanoseconds within the second.
    pub closed spec fn spec_nanos(self) -> int {
        self.nanos as int
    }

    /// The seconds since the UNIX epoch.
    pub fn seconds(&self) -> (r: i64)
        ensures
            r as int == self.spec_seconds(),
            utc_representable(self.spec_seconds(), self.spec_nanos()),
    {
        proof {
            use_type_invariant(self);
        }
        self.seconds
    }

    /// The nanoseconds within the second.
    pub fn nanos(&self) -> (r: u32)
        ensures
            r as int == self.spec_nanos(),
    {
        self.nanos
    }
}

/// The instant that a representable timestamp denotes: its seconds, and its
/// nanoseconds as chrono receives them.
pub closed spec fn utc_time_of(ts: Timestamp) -> UtcTime {
    UtcTime { seconds: ts.seconds, nanos: chrono_nanos(ts) }
}

/// `utc_time_of` keeps the seconds and the nanoseconds.
pub proof fn lemma_utc_time_of(ts: Timestamp)
    ensures
        utc_time_of(ts).spec_seconds() == ts.seconds as int,
        utc_time_of(ts).spec_nanos() == chrono_nanos(ts) as int,
{
}

/// Two instants with the same seconds and nanoseconds are the same instant.
pub proof fn lemma_utc_time_eq(a: UtcTime, b: UtcTime)
    requires
        a.spec_seconds() == b.spec_seconds(),
        a.spec_nanos() == b.spec_nanos(),
    ensures
        a == b,
{
}

/// Whether `t` is the instant that the timestamp denotes.
pub open spec fn is_utc_time_of(t: UtcTime, ts: Timestamp) -> bool {
    t == utc_time_of(ts)
}

/// Whether chrono accepts the timestamp (`timestamp_representable`).
pub fn is_representable(ts: &Timestamp) -> (r: bool)
    ensures
        r == timestamp_representable(*ts),
{
    chrono_accepts_timestamp(ts.seconds, #[verifier::truncate] (ts.nanos as u32))
}

/// Converts a timestamp into a UTC instant through chrono.
pub fn convert_to_utc_time(ts: &Timestamp) -> (r: UtcTime)
    requires
        timestamp_representable(*ts),
    ensures
        is_utc_time_of(r, *ts),
{
    let nanos: u32 = #[verifier::truncate] (ts.nanos as u32);
    let accepted = chrono_accepts_timestamp(ts.seconds, nanos);
    assert(accepted);
    UtcTime { seconds: ts.seconds, nanos }
}

/// Converts a timestamp into a UTC instant, or `None` where chrono rejects it.
pub fn try_convert_to_utc_time(ts: &Timestamp) -> (r: Option<UtcTime>)
    ensures
        r is Some <==> timestamp_representable(*ts),
        r matches Some(t) ==> is_utc_time_of(t, *ts),
{
    let nanos: u32 = #[verifier::truncate] (ts.nanos as u32);
    if chrono_accepts_timestamp(ts.seconds, nanos) {
        Some(UtcTime { seconds: ts.seconds, nanos })
    } else {
        None
    }
}

/// The timestamp behind an optional reference.
pub open spec fn opt_timestamp(t: Option<&Timestamp>) -> Option<Timestamp> {
    match t {
        Some(ts) => Some(*ts),
        None => None,
    }
}

/// A time range is valid when both ends are given and the start second comes
/// strictly before the end second (nanoseconds are not compared).
pub open spec fn valid_range(start: Option<Timestamp>, end: Option<Timestamp>) -> bool {
    &&& start is Some
    &&& end is Some
    &&& start->Some_0.seconds < end->Some_0.seconds
}

/// Checks that both ends of a time range are given and that the start second
/// comes strictly before the end second; otherwise `Error::InvalidTime`.
pub fn validate_range(start: Option<&Timestamp>, end: Option<&Timestamp>) -> (r: Result<(), Error>)
    ensures
        r == (if valid_range(opt_timestamp(start), opt_timestamp(end)) {
            Ok::<(), Error>(())
        } else {
            Err(Error::InvalidTime)
        }),
        (start matches Some(s) && end matches Some(e) && s.seconds < e.seconds) ==> r == Ok::<
            (),
            Error,
        >(()),
        !(start matches Some(s) && end matches Some(e) && s.seconds < e.seconds) ==> r == Err::<
            (),
            Error,
        >(Error::InvalidTime),
{
    if start.is_none() || end.is_none() {
        return Err(Error::InvalidTime);
    }
    let start = start.unwrap();
    let end = end.unwrap();
    if start.seconds >= end.seconds {
        return Err(Error::InvalidTime);
    }
    Ok(())
}

/// One end of a time span (the shape of `std::ops::Bound`).
#[derive(Debug, Clone, Copy, PartialEq, Eq)]
pub enum TimeBound {
    Included(UtcTime),
    Excluded(UtcTime),
    Unbounded,
}

/// A span of time between two bounds, as stored in a range column.
#[derive(Debug, Clone, Copy, PartialEq, Eq)]
pub struct TimeSpan {
    pub start: TimeBound,
    pub end: TimeBound,
}

/// Whether both ends are given and can be converted to UTC instants.
pub open spec fn timespan_representable(start: Option<Timestamp>, end: Option<Timestamp>) -> bool {
    &&& start is Some
    &&& end is Some
    &&& timestamp_representable(start->Some_0)
    &&& timestamp_representable(end->Some_0)
}

/// The span that `get_timespan` builds: both ends included, each the UTC
/// instant of the given timestamp.
pub open spec fn is_timespan_of(span: TimeSpan, start: Timestamp, end: Timestamp) -> bool {
    &&& span.start matches TimeBound::Included(s) && is_utc_time_of(s, start)
    &&& span.end matches TimeBound::Included(e) && is_utc_time_of(e, end)
}

/// The closed time span from `start` to `end`, both converted to UTC.
pub fn get_timespan(start: Option<&Timestamp>, end: Option<&Timestamp>) -> (r: TimeSpan)
    requires
        timespan_representable(opt_timestamp(start), opt_timestamp(end)),
    ensures
        is_timespan_of(r, *start->Some_0, *end->Some_0),
{
    let start = convert_to_utc_time(start.unwrap());
    let end = convert_to_utc_time(end.unwrap());
    TimeSpan { start: TimeBound::Included(start), end: TimeBound::Included(end) }
}

/// A range that passes `validate_range` and converts to UTC gives a span
/// whose start instant comes strictly before its end instant.
pub proof fn lemma_valid_range_ordered_span(span: TimeSpan, start: Timestamp, end: Timestamp)
    requires
        valid_range(Some(start), Some(end)),
        is_timespan_of(span, start, end),
    ensures
        span.start matches TimeBound::Included(s) && span.end matches TimeBound::Included(e)
            && s.spec_seconds() < e.spec_seconds(),
{
    lemma_utc_time_of(start);
    lemma_utc_time_of(end);
}

/// A range is accepted exactly when both ends are given and the start second
/// comes before the end second, however far apart they are; a missing end is
/// never accepted.
pub proof fn lemma_range_accepted_iff_ordered(start: Timestamp, end: Timestamp)
    ensures
        valid_range(Some(start), Some(end)) <==> start.seconds < end.seconds,
        !valid_range(None, Some(end)),
        !valid_range(Some(start), None),
        !valid_range(None, None),
{
}

} // verus!
