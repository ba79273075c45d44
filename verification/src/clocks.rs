//! Reading the clocks: the monotonic `Instant` that paces the timer and stopwatch, and the
//! `chrono` wall clock read in a time zone. Every call into them stands here.
//!
//! A moment of the wall clock is kept as a `Timestamp`: the plain values of a
//! `chrono::DateTime<Utc>` (seconds since 1970 and nanoseconds past the second), from
//! which `chrono` rebuilds the `DateTime` for each reading.

use vstd::prelude::*;

use chrono::{DateTime, Offset, Timelike, Utc};
use chrono_tz::Tz;
use std::time::{Instant, SystemTime, UNIX_EPOCH};

use crate::duration::Duration;

verus! {

#[verifier::external_type_specification]
#[verifier::external_body]
pub struct ExInstant(std::time::Instant);

/// `Instant::now`: the monotonic clock; nothing is stated of its reading.
#[verifier::external_body]
pub(crate) fn instant_now() -> Instant {
    Instant::now()
}

/// The span from `earlier` to `later` in nanoseconds, as `Instant::duration_since` gives it
/// (zero where `earlier` is the later one).
pub uninterp spec fn instant_gap(later: Instant, earlier: Instant) -> nat;

/// `Instant::duration_since`, which saturates at zero; the nanoseconds of a
/// `std::time::Duration` stay below a second, as the library's `Duration` keeps them.
#[verifier::external_body]
pub(crate) fn duration_since(later: Instant, earlier: Instant) -> (d: Duration)
    ensures
        d@ == instant_gap(later, earlier),
{
    let d = later.duration_since(earlier);
    Duration { secs: d.as_secs(), nanos: d.subsec_nanos() }
}

/// The first second `chrono` represents: 262144 BCE (year -262143), January 1, 00:00:00 UTC.
pub const MIN_UNIX_SECS: i64 = -8_334_601_228_800;

/// The last second `chrono` represents: 262142 CE, December 31, 23:59:59 UTC.
pub const MAX_UNIX_SECS: i64 = 8_210_266_876_799;

/// Whether `DateTime::<Utc>::from_timestamp(secs, nanos)` gives a moment: the day must lie
/// between `NaiveDate::MIN` and `NaiveDate::MAX`, and the nanoseconds below a second, or
/// below two in the last second of a minute (a leap second).
pub open spec fn representable(secs: int, nanos: nat) -> bool {
    &&& MIN_UNIX_SECS <= secs <= MAX_UNIX_SECS
    &&& nanos < 2_000_000_000
    &&& (nanos < 1_000_000_000 || secs % 60 == 59)
}

/// A moment of the wall clock: seconds since 1970-01-01 00:00 UTC and the nanoseconds past
/// that second, always ones that `chrono` represents (so that the readings below, which
/// rebuild the `DateTime` with `from_timestamp(..).unwrap()`, cannot fail).
#[derive(Debug, Clone, Copy, PartialEq, Eq)]
pub struct Timestamp {
    secs: i64,
    nanos: u32,
}

impl Timestamp {
    #[verifier::type_invariant]
    pub(crate) open spec fn inv(self) -> bool {
        representable(self.spec_secs(), self.spec_nanos())
    }

    pub closed spec fn spec_secs(self) -> int {
        self.secs as int
    }

    pub closed spec fn spec_nanos(self) -> nat {
        self.nanos as nat
    }

    /// The moment `secs` seconds and `nanos` nanoseconds after 1970-01-01 00:00 UTC, where
    /// `chrono` represents it.
    pub fn from_unix(secs: i64, nanos: u32) -> (t: Option<Timestamp>)
        ensures
            t is Some <==> representable(secs as int, nanos as nat),
            t matches Some(m) ==> m.spec_secs() == secs && m.spec_nanos() == nanos,
    {
        if utc_representable(secs, nanos) {
            Some(Timestamp { secs, nanos })
        } else {
            None
        }
    }

    /// 1970-01-01 00:00:00 UTC.
    pub fn unix_epoch() -> (t: Timestamp)
        ensures
            t.spec_secs() == 0,
            t.spec_nanos() == 0,
    {
        Timestamp { secs: 0, nanos: 0 }
    }

    /// The moment a span `since_epoch` after 1970-01-01 00:00 UTC, where `chrono`
    /// represents it.
    pub fn from_epoch_offset(since_epoch: Duration) -> (t: Option<Timestamp>)
        ensures
            parts(t) == epoch_reading(Some(since_epoch@)),
    {
        let secs = since_epoch.as_secs();
        let nanos = since_epoch.subsec_nanos();
        if secs > i64::MAX as u64 {
            return None;
        }
        Timestamp::from_unix(secs as i64, nanos)
    }

    /// The seconds since 1970-01-01 00:00 UTC.
    pub fn unix_secs(&self) -> (s: i64)
        ensures
            s == self.spec_secs(),
    {
        self.secs
    }

    /// The nanoseconds past the second.
    pub fn subsec_nanos(&self) -> (n: u32)
        ensures
            n == self.spec_nanos(),
    {
        self.nanos
    }
}

/// `DateTime::<Utc>::from_timestamp(secs, nanos).is_some()`.
#[verifier::external_body]
fn utc_representable(secs: i64, nanos: u32) -> (b: bool)
    ensures
        b == representable(secs as int, nanos as nat),
{
    DateTime::<Utc>::from_timestamp(secs, nanos).is_some()
}

/// The seconds and nanoseconds of an optional moment.
pub open spec fn parts(t: Option<Timestamp>) -> Option<(int, nat)> {
    match t {
        Some(m) => Some((m.spec_secs(), m.spec_nanos())),
        None => None,
    }
}

/// The moment read from a span of `nanos` nanoseconds since 1970, where there is one and
/// `chrono` represents it (`Utc::now` takes the same steps, and panics where this gives none).
pub open spec fn epoch_reading(nanos: Option<nat>) -> Option<(int, nat)> {
    match nanos {
        Some(n) => {
            let (secs, sub) = (n / 1_000_000_000, n % 1_000_000_000);
            if secs <= i64::MAX && representable(secs as int, sub) {
                Some((secs as int, sub))
            } else {
                None
            }
        },
        None => None,
    }
}

#[verifier::external_type_specification]
#[verifier::external_body]
pub struct ExSystemTime(std::time::SystemTime);

/// `SystemTime::now`: the system clock; nothing is stated of its reading.
#[verifier::external_body]
fn system_now() -> SystemTime {
    SystemTime::now()
}

/// The span in nanoseconds from 1970-01-01 00:00 UTC to a system time, as
/// `SystemTime::duration_since(UNIX_EPOCH)` gives it (none for a time before 1970).
pub uninterp spec fn epoch_offset(t: SystemTime) -> Option<nat>;

/// `SystemTime::duration_since(UNIX_EPOCH)`, with its error (a time before 1970) dropped.
/// The nanoseconds of a `std::time::Duration` stay below a second, as the library's
/// `Duration` keeps them.
#[verifier::external_body]
fn since_epoch(t: SystemTime) -> (d: Option<Duration>)
    ensures
        match d {
            Some(x) => epoch_offset(t) == Some(x@),
            None => epoch_offset(t) is None,
        },
{
    t.duration_since(UNIX_EPOCH).ok().map(|x| Duration { secs: x.as_secs(), nanos: x.subsec_nanos() })
}

/// The wall clock now, read as `Utc::now` reads it, from the system clock; `None` where the
/// system clock reads before 1970 (or past what `chrono` represents). A reading lies at or
/// after 1970-01-01 00:00 UTC and is not inside a leap second.
pub fn utc_now() -> (t: Option<Timestamp>)
    ensures
        exists|clock: SystemTime| parts(t) == epoch_reading(epoch_offset(clock)),
        t matches Some(m) ==> m.spec_secs() >= 0 && m.spec_nanos() < 1_000_000_000,
{
    let clock = system_now();
    match since_epoch(clock) {
        Some(d) => {
            let t = Timestamp::from_epoch_offset(d);
            assert(parts(t) == epoch_reading(epoch_offset(clock)));
            t
        },
        None => {
            assert(parts(None) == epoch_reading(epoch_offset(clock)));
            None
        },
    }
}

/// The hour of a moment seen in a zone: `Timelike::hour` of
/// `DateTime::from_timestamp(..).with_timezone(tz)`.
pub uninterp spec fn hour_in(secs: int, nanos: nat, tz: Tz) -> nat;

/// The minute of a moment seen in a zone (`Timelike::minute`).
pub uninterp spec fn minute_in(secs: int, nanos: nat, tz: Tz) -> nat;

/// The second of a moment seen in a zone (`Timelike::second`).
pub uninterp spec fn second_in(secs: int, nanos: nat, tz: Tz) -> nat;

/// The nanoseconds past the second of a moment seen in a zone (`Timelike::nanosecond`).
pub uninterp spec fn nanosecond_in(secs: int, nanos: nat, tz: Tz) -> nat;

/// The offset from UTC in seconds of a zone at a moment:
/// `offset().fix().local_minus_utc()` of the zoned `DateTime`.
pub uninterp spec fn offset_in(secs: int, nanos: nat, tz: Tz) -> int;

/// `Timelike::hour` of the moment in `tz`, documented to lie from 0 to 23.
#[verifier::external_body]
pub(crate) fn hour_at(t: Timestamp, tz: Tz) -> (h: u32)
    requires
        representable(t.spec_secs(), t.spec_nanos()),
    ensures
        h == hour_in(t.spec_secs(), t.spec_nanos(), tz),
        h < 24,
{
    DateTime::from_timestamp(t.secs, t.nanos).unwrap().with_timezone(&tz).hour()
}

/// `Timelike::minute` of the moment in `tz`, documented to lie from 0 to 59.
#[verifier::external_body]
pub(crate) fn minute_at(t: Timestamp, tz: Tz) -> (m: u32)
    requires
        representable(t.spec_secs(), t.spec_nanos()),
    ensures
        m == minute_in(t.spec_secs(), t.spec_nanos(), tz),
        m < 60,
{
    DateTime::from_timestamp(t.secs, t.nanos).unwrap().with_timezone(&tz).minute()
}

/// `Timelike::second` of the moment in `tz`, documented to lie from 0 to 59.
#[verifier::external_body]
pub(crate) fn second_at(t: Timestamp, tz: Tz) -> (s: u32)
    requires
        representable(t.spec_secs(), t.spec_nanos()),
    ensures
        s == second_in(t.spec_secs(), t.spec_nanos(), tz),
        s < 60,
{
    DateTime::from_timestamp(t.secs, t.nanos).unwrap().with_timezone(&tz).second()
}

/// `Timelike::nanosecond` of the moment in `tz`, documented to lie below 2,000,000,000
/// (a leap second counts on past 1,000,000,000).
#[verifier::external_body]
pub(crate) fn nanosecond_at(t: Timestamp, tz: Tz) -> (n: u32)
    requires
        representable(t.spec_secs(), t.spec_nanos()),
    ensures
        n == nanosecond_in(t.spec_secs(), t.spec_nanos(), tz),
        n < 2_000_000_000,
{
    DateTime::from_timestamp(t.secs, t.nanos).unwrap().with_timezone(&tz).nanosecond()
}

/// `offset().fix().local_minus_utc()` of the moment in `tz`; a `FixedOffset` lies
/// strictly within a day of UTC.
#[verifier::external_body]
pub(crate) fn offset_at(t: Timestamp, tz: Tz) -> (secs: i32)
    requires
        representable(t.spec_secs(), t.spec_nanos()),
    ensures
        secs == offset_in(t.spec_secs(), t.spec_nanos(), tz),
        -86_400 < secs < 86_400,
{
    DateTime::from_timestamp(t.secs, t.nanos).unwrap().with_timezone(&tz).offset().fix().local_minus_utc()
}

/// The reading of the wall clock that the big clock face shows.
#[derive(Debug, Clone, Copy, PartialEq, Eq, Structural)]
pub struct WallTime {
    pub hour: u32,
    pub minute: u32,
    pub second: u32,
    /// Milliseconds past the second; a leap second reads on from 1000.
    pub milli: u32,
}

/// The clock reading of a moment seen in a zone.
pub open spec fn wall_time_in(t: Timestamp, tz: Tz) -> WallTime {
    let (s, n) = (t.spec_secs(), t.spec_nanos());
    WallTime {
        hour: hour_in(s, n, tz) as u32,
        minute: minute_in(s, n, tz) as u32,
        second: second_in(s, n, tz) as u32,
        milli: (nanosecond_in(s, n, tz) / 1_000_000) as u32,
    }
}

/// The hour, minute, second and millisecond of the moment `t` seen in `tz`.
pub fn wall_time(t: Timestamp, tz: Tz) -> (w: WallTime)
    ensures
        w == wall_time_in(t, tz),
        w.hour < 24,
        w.minute < 60,
        w.second < 60,
        w.milli < 2000,
{
    proof { use_type_invariant(&t); }
    WallTime {
        hour: hour_at(t, tz),
        minute: minute_at(t, tz),
        second: second_at(t, tz),
        milli: nanosecond_at(t, tz) / 1_000_000,
    }
}

} // verus!
