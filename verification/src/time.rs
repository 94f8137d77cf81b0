//! Instants of time, and the two ways the feed writes one down.
//!
//! Calendar arithmetic and the time zone database are those of `chrono` and
//! `chrono-tz`. The library holds an instant as plain numbers and hands
//! them over whenever a text is needed.

use vstd::prelude::*;

use crate::text::digit_char;

verus! {

/// The first second of the year 0000, in seconds since the Unix epoch.
pub const MIN_SECONDS: i64 = -62_167_219_200;

/// The last second of the year 9999, in seconds since the Unix epoch.
pub const MAX_SECONDS: i64 = 253_402_300_799;

/// Whether `secs` seconds since the Unix epoch and `nanos` nanoseconds into
/// that second name an instant that the feed can write down: one in the
/// years 0000 to 9999, which is as far as RFC 2822 goes. A nanosecond count
/// of a billion or more stands for a leap second and may only follow the
/// last second of a minute.
pub open spec fn representable(secs: int, nanos: int) -> bool {
    &&& MIN_SECONDS <= secs <= MAX_SECONDS
    &&& 0 <= nanos < 2_000_000_000
    &&& nanos >= 1_000_000_000 ==> secs % 60 == 59
}

/// The RFC 2822 text that `chrono` writes for the instant in UTC, such as
/// `Mon, 1 Jan 2024 23:30:00 +0000`.
pub uninterp spec fn rfc2822_text(secs: int, nanos: int) -> Seq<char>;

/// Whether `chrono-tz` knows a time zone under this name, such as
/// `Europe/Berlin`. Names are compared letter by letter.
pub uninterp spec fn timezone_known(name: Seq<char>) -> bool;

/// By how many seconds the clocks of the named time zone are ahead of UTC at
/// the instant `secs` seconds after the Unix epoch, as `chrono-tz` finds it
/// in its table of zones (`offset_from_utc_datetime`): 3600 for
/// `Europe/Berlin` in winter.
pub uninterp spec fn utc_offset(zone: Seq<char>, secs: int) -> int;

/// A number below a hundred in two decimal digits.
pub open spec fn two_digits(n: int) -> Seq<char>
    recommends
        0 <= n < 100,
{
    seq![digit_char((n / 10) as nat), digit_char((n % 10) as nat)]
}

/// What a 24-hour clock shows at the given second of the day, as `HH:MM`.
pub open spec fn clock_text(second_of_day: int) -> Seq<char>
    recommends
        0 <= second_of_day < 86_400,
{
    two_digits(second_of_day / 3600) + seq![':'] + two_digits(second_of_day / 60 % 60)
}

/// What a clock in the named time zone shows at the instant `secs` seconds
/// after the Unix epoch, as `HH:MM`.
pub open spec fn local_clock_text(secs: int, zone: Seq<char>) -> Seq<char> {
    clock_text((secs + utc_offset(zone, secs)) % 86_400)
}

/// Calls `chrono::DateTime::from_timestamp` and `DateTime::to_rfc2822`.
///
/// Trusted: for a representable instant `from_timestamp` returns a value,
/// `to_rfc2822` does not panic on a year from 0000 to 9999, and the text
/// depends on the instant alone.
#[verifier::external_body]
fn chrono_rfc2822(secs: i64, nanos: u32) -> (text: String)
    requires
        representable(secs as int, nanos as int),
    ensures
        text@ == rfc2822_text(secs as int, nanos as int),
{
    chrono::DateTime::from_timestamp(secs, nanos).unwrap().to_rfc2822()
}

/// Calls `chrono_tz::Tz::from_str`.
///
/// Trusted: whether the name parses depends on the name alone; the table of
/// zones is compiled into `chrono-tz`.
#[verifier::external_body]
fn chrono_tz_known(name: &str) -> (known: bool)
    ensures
        known == timezone_known(name@),
{
    name.parse::<chrono_tz::Tz>().is_ok()
}

/// Calls `chrono_tz::Tz::from_str`, `chrono::DateTime::with_timezone` and
/// `DateTime::format` with the pattern `%H:%M`.
///
/// Trusted: for a known zone and a representable instant none of the calls
/// panics. `with_timezone` looks up the offset of the zone at the instant;
/// `format` adds it to the instant and writes the hour and the minute of
/// the day that results, each in two digits.
#[verifier::external_body]
fn chrono_local_clock(secs: i64, nanos: u32, zone: &str) -> (text: String)
    requires
        representable(secs as int, nanos as int),
        timezone_known(zone@),
    ensures
        text@ == clock_text((secs + utc_offset(zone@, secs as int)) % 86_400),
{
    let tz: chrono_tz::Tz = zone.parse().unwrap();
    let utc = chrono::DateTime::from_timestamp(secs, nanos).unwrap();
    utc.with_timezone(&tz).format("%H:%M").to_string()
}

/// Whether a time zone of this name exists.
pub fn is_known_timezone(name: &str) -> (known: bool)
    ensures
        known == timezone_known(name@),
{
    chrono_tz_known(name)
}

/// An instant between the years 0000 and 9999, in UTC.
#[derive(Debug, Clone, Copy, PartialEq, Eq)]
pub struct Timestamp {
    secs: i64,
    nanos: u32,
}

impl Timestamp {
    #[verifier::type_invariant]
    spec fn wf(self) -> bool {
        representable(self.secs as int, self.nanos as int)
    }

    /// Seconds since the Unix epoch.
    pub closed spec fn seconds(self) -> int {
        self.secs as int
    }

    /// Nanoseconds into the second; a billion or more during a leap second.
    pub closed spec fn nanoseconds(self) -> int {
        self.nanos as int
    }

    /// The instant `secs` seconds after the Unix epoch and `nanos`
    /// nanoseconds into that second, if the feed can write it down.
    pub fn new(secs: i64, nanos: u32) -> (made: Option<Timestamp>)
        ensures
            made is Some <==> representable(secs as int, nanos as int),
            made matches Some(t) ==> t.seconds() == secs && t.nanoseconds() == nanos,
    {
        if secs < MIN_SECONDS || secs > MAX_SECONDS || nanos >= 2_000_000_000 {
            return None;
        }
        if nanos >= 1_000_000_000 {
            let since_min: i64 = secs - MIN_SECONDS;
            if since_min % 60 != 59 {
                return None;
            }
        }
        Some(Timestamp { secs, nanos })
    }

    /// Seconds since the Unix epoch. Every timestamp is representable.
    pub fn secs(&self) -> (secs: i64)
        ensures
            secs == self.seconds(),
            representable(self.seconds(), self.nanoseconds()),
    {
        proof {
            use_type_invariant(self);
        }
        self.secs
    }

    /// Nanoseconds into the second.
    pub fn nanos(&self) -> (nanos: u32)
        ensures
            nanos == self.nanoseconds(),
    {
        self.nanos
    }

    /// The instant in RFC 2822 notation, in UTC.
    pub fn to_rfc2822(&self) -> (text: String)
        ensures
            text@ == rfc2822_text(self.seconds(), self.nanoseconds()),
    {
        proof {
            use_type_invariant(self);
        }
        chrono_rfc2822(self.secs, self.nanos)
    }

    /// What a clock in the time zone `zone` shows at the instant, as `HH:MM`.
    pub fn local_clock(&self, zone: &str) -> (text: String)
        requires
            timezone_known(zone@),
        ensures
            text@ == local_clock_text(self.seconds(), zone@),
    {
        proof {
            use_type_invariant(self);
        }
        chrono_local_clock(self.secs, self.nanos, zone)
    }
}

} // verus!
