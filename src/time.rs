//! Instants and times of day, as plain integers.
//!
//! An instant is a count of seconds and nanoseconds since the Unix epoch
//! (UTC), together with the offset of the local time zone in which it was
//! observed. The day of the week and the time of day of an instant are read
//! in that local time.

use vstd::prelude::*;
use vstd::arithmetic::div_mod::{lemma_fundamental_div_mod, lemma_fundamental_div_mod_converse};

verus! {

/// Seconds in a day.
pub const SECS_PER_DAY: u32 = 86400;

/// Nanoseconds in a second.
pub const NANOS_PER_SEC: u32 = 1_000_000_000;

/// A multiple of a whole week of seconds, large enough that adding it to any
/// local second count makes that count non-negative.
const WEEKS_SHIFT: u128 = 604800 * 1125899906842624;

/// A time of day: seconds since midnight and a sub-second part.
#[derive(Clone, Copy, Debug, PartialEq, Eq, Structural)]
pub struct TimeOfDay {
    pub secs: u32,
    pub nanos: u32,
}

impl TimeOfDay {
    pub open spec fn wf(&self) -> bool {
        self.secs < SECS_PER_DAY && self.nanos < NANOS_PER_SEC
    }

    /// `self` is not later in the day than `other`.
    pub open spec fn not_after(&self, other: TimeOfDay) -> bool {
        self.secs < other.secs || (self.secs == other.secs && self.nanos <= other.nanos)
    }

    /// The time `hour:minute:second`, or `None` when a part is out of range.
    pub fn from_hms(hour: u32, minute: u32, second: u32) -> (r: Option<TimeOfDay>)
        ensures
            hour < 24 && minute < 60 && second < 60 <==> r.is_some(),
            r matches Some(t) ==> t.wf() && t.nanos == 0 && t.secs == hour * 3600 + minute * 60
                + second,
    {
        if hour < 24 && minute < 60 && second < 60 {
            Some(TimeOfDay { secs: hour * 3600 + minute * 60 + second, nanos: 0 })
        } else {
            None
        }
    }

    /// The time with `secs` seconds since midnight and `nanos` nanoseconds,
    /// or `None` when a part is out of range.
    pub fn new(secs: u32, nanos: u32) -> (r: Option<TimeOfDay>)
        ensures
            secs < SECS_PER_DAY && nanos < NANOS_PER_SEC <==> r.is_some(),
            r matches Some(t) ==> t.wf() && t.secs == secs && t.nanos == nanos,
    {
        if secs < SECS_PER_DAY && nanos < NANOS_PER_SEC {
            Some(TimeOfDay { secs, nanos })
        } else {
            None
        }
    }

    pub fn is_not_after(&self, other: &TimeOfDay) -> (r: bool)
        ensures
            r == self.not_after(*other),
    {
        self.secs < other.secs || (self.secs == other.secs && self.nanos <= other.nanos)
    }

    /// The hour, 0 to 23.
    pub fn hour(&self) -> (r: u32)
        requires
            self.wf(),
        ensures
            r == self.secs / 3600,
            r < 24,
    {
        self.secs / 3600
    }

    /// The minute within the hour, 0 to 59.
    pub fn minute(&self) -> (r: u32)
        requires
            self.wf(),
        ensures
            r == (self.secs % 3600) / 60,
            r < 60,
    {
        (self.secs % 3600) / 60
    }
}

/// A moment in time, with the local UTC offset it was observed in.
#[derive(Clone, Copy, Debug, PartialEq, Eq, Structural)]
pub struct Instant {
    /// Whole seconds since 1970-01-01T00:00:00Z.
    pub secs: i64,
    /// Nanoseconds past `secs`.
    pub nanos: u32,
    /// Seconds to add to UTC to get local time.
    pub offset: i32,
}

impl Instant {
    pub open spec fn wf(&self) -> bool {
        self.nanos < NANOS_PER_SEC && -86400 < self.offset < 86400
    }

    /// `self` is not later than `other`; the offsets play no part.
    pub open spec fn not_after(&self, other: Instant) -> bool {
        self.secs < other.secs || (self.secs == other.secs && self.nanos <= other.nanos)
    }

    /// `self` and `other` are the same moment; the offsets play no part.
    pub open spec fn same_moment(&self, other: Instant) -> bool {
        self.secs == other.secs && self.nanos == other.nanos
    }

    /// Seconds since the epoch in local time.
    pub open spec fn local_secs(&self) -> int {
        self.secs + self.offset
    }

    /// Days since the epoch in local time (1970-01-01 is day 0, a Thursday).
    pub open spec fn local_day(&self) -> int {
        self.local_secs() / (SECS_PER_DAY as int)
    }

    /// ISO day of the week in local time: Monday is 1, Sunday is 7.
    pub open spec fn weekday_spec(&self) -> int {
        (self.local_day() + 3) % 7 + 1
    }

    /// The local time of day.
    pub open spec fn time_of_day_spec(&self) -> TimeOfDay {
        TimeOfDay { secs: (self.local_secs() % (SECS_PER_DAY as int)) as u32, nanos: self.nanos }
    }

    /// The instant `secs` seconds and `nanos` nanoseconds after the epoch,
    /// seen at UTC offset `offset`, or `None` when `nanos` is a second or
    /// more or `offset` a whole day or more.
    pub fn new(secs: i64, nanos: u32, offset: i32) -> (r: Option<Instant>)
        ensures
            nanos < NANOS_PER_SEC && -86400 < offset < 86400 <==> r.is_some(),
            r matches Some(i) ==> i.wf() && i.secs == secs && i.nanos == nanos && i.offset
                == offset,
    {
        if nanos < NANOS_PER_SEC && -86400 < offset && offset < 86400 {
            Some(Instant { secs, nanos, offset })
        } else {
            None
        }
    }

    pub fn is_not_after(&self, other: &Instant) -> (r: bool)
        ensures
            r == self.not_after(*other),
    {
        self.secs < other.secs || (self.secs == other.secs && self.nanos <= other.nanos)
    }

    /// Local seconds moved up by a whole number of weeks so that they are
    /// non-negative, which leaves day of week and time of day unchanged.
    fn shifted_local_secs(&self) -> (r: u128)
        ensures
            r == self.local_secs() + WEEKS_SHIFT,
    {
        (self.secs as i128 + self.offset as i128 + WEEKS_SHIFT as i128) as u128
    }

    /// Days since the epoch in local time.
    pub fn local_day_number(&self) -> (r: i128)
        ensures
            r == self.local_day(),
    {
        let u = self.shifted_local_secs();
        proof {
            let x = self.local_secs();
            let d = 86400int;
            lemma_fundamental_div_mod(x, d);
            lemma_fundamental_div_mod_converse(
                u as int,
                d,
                x / d + 7 * 1125899906842624,
                x % d,
            );
        }
        (u / 86400) as i128 - 7 * 1125899906842624
    }

    /// ISO day of the week in local time: Monday is 1, Sunday is 7.
    pub fn weekday(&self) -> (r: u32)
        ensures
            r == self.weekday_spec(),
            1 <= r <= 7,
    {
        let u = self.shifted_local_secs();
        let days = u / (SECS_PER_DAY as u128);
        proof {
            let x = self.local_secs();
            let d = SECS_PER_DAY as int;
            lemma_fundamental_div_mod(x, d);
            lemma_fundamental_div_mod_converse(u as int, d, x / d + 7 * 1125899906842624, x % d);
            assert((days + 3) % 7 == (x / d + 3) % 7) by {
                lemma_fundamental_div_mod(x / d + 3, 7);
                lemma_fundamental_div_mod_converse(
                    days + 3,
                    7,
                    (x / d + 3) / 7 + 1125899906842624,
                    (x / d + 3) % 7,
                );
            }
        }
        ((days + 3) % 7) as u32 + 1
    }

    /// The local time of day.
    pub fn time_of_day(&self) -> (r: TimeOfDay)
        ensures
            r == self.time_of_day_spec(),
            self.wf() ==> r.wf(),
    {
        let u = self.shifted_local_secs();
        proof {
            let x = self.local_secs();
            let d = SECS_PER_DAY as int;
            lemma_fundamental_div_mod(x, d);
            lemma_fundamental_div_mod_converse(
                u as int,
                d,
                x / d + 7 * 1125899906842624,
                x % d,
            );
        }
        TimeOfDay { secs: (u % (SECS_PER_DAY as u128)) as u32, nanos: self.nanos }
    }
}

/// Relies on chrono's `Local::now`: the current time as a `DateTime<Local>`,
/// built from the system clock (sub-second part below one second) and a
/// `FixedOffset`, which `FixedOffset::east_opt` keeps strictly within a day.
/// chrono panics when the system clock reads earlier than the Unix epoch.
#[verifier::external_body]
pub(crate) fn local_now() -> (r: Instant)
    ensures
        r.wf(),
{
    let now = chrono::Local::now();
    Instant {
        secs: now.timestamp(),
        nanos: now.timestamp_subsec_nanos(),
        offset: now.offset().local_minus_utc(),
    }
}

} // verus!
