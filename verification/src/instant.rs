//! Instants of universal time, counted from the Unix epoch, and their
//! RFC 3339 text.

use vstd::prelude::*;

verus! {

/// Seconds from the epoch to the first instant of the year 262144 BCE, the
/// earliest that the calendar can name.
pub const MIN_SECONDS: i64 = -8_334_601_228_800;

/// Seconds from the epoch to the last second of the year 262142 CE, the
/// latest that the calendar can name.
pub const MAX_SECONDS: i64 = 8_210_266_876_799;

/// Nanoseconds in one second.
pub const NANOS_PER_SECOND: u32 = 1_000_000_000;

/// An instant as plain numbers: whole seconds since 1970-01-01T00:00:00Z,
/// leap seconds not counted, and the nanoseconds that follow.
pub struct Instant {
    pub seconds: int,
    pub nanos: int,
}

/// The instants that the calendar can name.
///
/// The nanoseconds stay below one second, but for a leap second: it is
/// written as a second part of one second or more, in the last second of a
/// minute.
pub open spec fn valid_instant(seconds: int, nanos: int) -> bool {
    &&& MIN_SECONDS <= seconds <= MAX_SECONDS
    &&& 0 <= nanos < 2 * NANOS_PER_SECOND
    &&& nanos >= NANOS_PER_SECOND ==> seconds % 60 == 59
}

/// The RFC 3339 text of an instant, in universal time with nine digits of
/// second fraction, such as `2023-08-19T22:32:49.582287501Z`. A year before
/// 0000 or after 9999 is written with its sign, which RFC 3339 has no form
/// for.
pub uninterp spec fn instant_text(seconds: int, nanos: int) -> Seq<char>;

/// The instant that a text denotes when read as an RFC 3339 date and time,
/// in the relaxed form that `chrono` reads, as seconds and nanoseconds; or
/// `None` where it is none.
pub uninterp spec fn rfc3339_instant(text: Seq<char>) -> Option<(int, int)>;

/// The instant that `text` denotes, where the calendar can name it.
pub open spec fn read_instant(text: Seq<char>) -> Option<Instant> {
    match rfc3339_instant(text) {
        Some((seconds, nanos)) => if valid_instant(seconds, nanos) {
            Some(Instant { seconds, nanos })
        } else {
            None
        },
        None => None,
    }
}

/// `chrono::Utc::now`, read off as seconds and nanoseconds since the epoch.
///
/// Nothing is known of the reading but that it is an instant that the
/// calendar can name: `chrono` builds it with `DateTime::from_timestamp`.
/// Where the system clock stands before the epoch, `now` panics.
#[verifier::external_body]
fn clock_reading() -> (reading: (i64, u32))
    ensures
        valid_instant(reading.0 as int, reading.1 as int),
{
    let now = chrono::Utc::now();
    (now.timestamp(), now.timestamp_subsec_nanos())
}

/// `chrono::DateTime::to_rfc3339_opts` with nanoseconds and `Z`, applied to
/// the `DateTime<Utc>` that `DateTime::from_timestamp` makes of the
/// arguments. The text is a function of the two numbers alone.
#[verifier::external_body]
fn rfc3339_text(seconds: i64, nanos: u32) -> (text: String)
    requires
        valid_instant(seconds as int, nanos as int),
    ensures
        text@ == instant_text(seconds as int, nanos as int),
{
    let time = chrono::DateTime::from_timestamp(seconds, nanos).unwrap();
    time.to_rfc3339_opts(chrono::SecondsFormat::Nanos, true)
}

/// `str::parse::<chrono::DateTime<chrono::Utc>>`, which reads RFC 3339 in a
/// relaxed form, with the result taken apart by `DateTime::timestamp` and
/// `DateTime::timestamp_subsec_nanos`. What is read is a function of the
/// text alone.
#[verifier::external_body]
fn rfc3339_reading(text: &str) -> (reading: Option<(i64, u32)>)
    ensures
        reading matches Some(r) ==> rfc3339_instant(text@) == Some((r.0 as int, r.1 as int)),
        reading is None ==> rfc3339_instant(text@) is None,
{
    match text.parse::<chrono::DateTime<chrono::Utc>>() {
        Ok(time) => Some((time.timestamp(), time.timestamp_subsec_nanos())),
        Err(_) => None,
    }
}

/// An instant of universal time that the calendar can name.
#[derive(Clone, Copy, Debug, PartialEq, Eq, Structural)]
pub struct Timestamp {
    seconds: i64,
    nanos: u32,
}

impl View for Timestamp {
    type V = Instant;

    closed spec fn view(&self) -> Instant {
        Instant { seconds: self.seconds as int, nanos: self.nanos as int }
    }
}

impl Timestamp {
    #[verifier::type_invariant]
    spec fn named_by_calendar(self) -> bool {
        valid_instant(self.seconds as int, self.nanos as int)
    }

    /// The instant `seconds` and `nanos` after the epoch, if the calendar can
    /// name it.
    pub fn new(seconds: i64, nanos: u32) -> (time: Option<Timestamp>)
        ensures
            time is Some <==> valid_instant(seconds as int, nanos as int),
            time matches Some(t) ==> t@ == (Instant { seconds: seconds as int, nanos: nanos as int }),
    {
        if seconds < MIN_SECONDS || seconds > MAX_SECONDS || nanos >= 2 * NANOS_PER_SECOND {
            return None;
        }
        if nanos >= NANOS_PER_SECOND {
            // MIN_SECONDS is a whole number of minutes, so the distance to it
            // tells the second within the minute.
            let second_of_minute = (seconds - MIN_SECONDS) % 60;
            if second_of_minute != 59 {
                return None;
            }
        }
        Some(Timestamp { seconds, nanos })
    }

    /// Whole seconds since the epoch.
    pub fn seconds(&self) -> (seconds: i64)
        ensures
            seconds == self@.seconds,
            valid_instant(self@.seconds, self@.nanos),
    {
        proof {
            use_type_invariant(self);
        }
        self.seconds
    }

    /// Nanoseconds since the last whole second; a second or more within a
    /// leap second.
    pub fn nanos(&self) -> (nanos: u32)
        ensures
            nanos == self@.nanos,
            valid_instant(self@.seconds, self@.nanos),
    {
        proof {
            use_type_invariant(self);
        }
        self.nanos
    }

    /// The instant that the system clock shows. Nothing is known of it but
    /// that the calendar can name it.
    pub fn now() -> (time: Timestamp)
        ensures
            valid_instant(time@.seconds, time@.nanos),
    {
        let (seconds, nanos) = clock_reading();
        Timestamp { seconds, nanos }
    }

    /// The RFC 3339 text of this instant.
    pub fn to_text(&self) -> (text: String)
        ensures
            text@ == instant_text(self@.seconds, self@.nanos),
    {
        proof {
            use_type_invariant(self);
        }
        rfc3339_text(self.seconds, self.nanos)
    }

    /// Reads an RFC 3339 date and time.
    pub fn parse(text: &str) -> (time: Option<Timestamp>)
        ensures
            time is Some <==> read_instant(text@) is Some,
            time matches Some(t) ==> Some(t@) == read_instant(text@),
    {
        match rfc3339_reading(text) {
            Some((seconds, nanos)) => Timestamp::new(seconds, nanos),
            None => None,
        }
    }
}

} // verus!
