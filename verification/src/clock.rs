//! The wall clock, read through `chrono`, and the way its dates and times
//! are written. Little is stated of the values read: they come from the
//! system clock and the local time zone. Verified code that needs the time
//! takes it from here and is stated for every value.
use chrono::{Datelike, Timelike};
use vstd::prelude::*;

use crate::text::{chars_of, decimal, decimal_of, extend, push_str, zero_pad, zero_padded};

verus! {

/// A local date and time, by the parts that `chrono` gives of it.
pub struct LocalDateTime {
    pub year: i32,
    pub month: u32,
    pub day: u32,
    pub hour: u32,
    pub minute: u32,
    pub second: u32,
    /// Days since Monday, 0 to 6.
    pub weekday: u32,
}

impl LocalDateTime {
    /// The ranges that chrono documents for each part.
    pub open spec fn is_valid(&self) -> bool {
        &&& 1 <= self.month <= 12
        &&& 1 <= self.day <= 31
        &&& self.hour < 24
        &&& self.minute < 60
        &&& self.second < 60
        &&& self.weekday < 7
    }
}

/// `chrono::Utc::now().timestamp()`, the current Unix time in seconds.
#[verifier::external_body]
pub(crate) fn utc_now_timestamp() -> (r: i64) {
    chrono::Utc::now().timestamp()
}

/// The parts of `chrono::Local::now()`: `year`, `month`, `day`, `hour`,
/// `minute`, `second` and `weekday().num_days_from_monday()`. Trusted, as
/// chrono documents: each part lies in its range (`is_valid`). Which time
/// it is depends on the clock and the time zone and is not stated.
#[verifier::external_body]
pub(crate) fn local_now() -> (r: LocalDateTime)
    ensures
        r.is_valid(),
{
    let now = chrono::Local::now();
    LocalDateTime {
        year: now.year(),
        month: now.month(),
        day: now.day(),
        hour: now.hour(),
        minute: now.minute(),
        second: now.second(),
        weekday: now.weekday().num_days_from_monday(),
    }
}

/// The Unix times that chrono can show: a quarter of a million years on
/// either side of 1970 lies within its range.
pub open spec fn showable_time(seconds: i64) -> bool {
    -8_000_000_000_000 <= seconds <= 8_000_000_000_000
}

/// The parts, in the local time zone, of the Unix time `seconds`, through
/// `chrono::DateTime::<Utc>::from_timestamp` and `with_timezone(&Local)`;
/// `None` when chrono has no such time. Trusted, as chrono documents: times
/// within about 262,000 years of the common era exist, and each part lies
/// in its range. Which local time it is depends on the machine's time zone
/// and is not stated.
#[verifier::external_body]
pub(crate) fn local_time_of_timestamp(seconds: i64) -> (r: Option<LocalDateTime>)
    ensures
        showable_time(seconds) ==> r is Some,
        r matches Some(t) ==> t.is_valid(),
{
    let local = chrono::DateTime::<chrono::Utc>::from_timestamp(seconds, 0)?.with_timezone(
        &chrono::Local,
    );
    Some(LocalDateTime {
        year: local.year(),
        month: local.month(),
        day: local.day(),
        hour: local.hour(),
        minute: local.minute(),
        second: local.second(),
        weekday: local.weekday().num_days_from_monday(),
    })
}

/// A year as chrono writes it for `%Y`: four digits at least, zero-padded,
/// with a sign outside 0 to 9999 (`-0042`, `+12345`).
pub open spec fn year_text(year: int) -> Seq<char> {
    if 0 <= year <= 9999 {
        zero_pad(decimal(year as nat), 4)
    } else if year > 9999 {
        "+"@ + decimal(year as nat)
    } else {
        "-"@ + zero_pad(decimal((-year) as nat), 4)
    }
}

/// A number below 100 as chrono writes it for `%m`, `%d`, `%H`, `%M` and
/// `%S`: two digits, zero-padded.
pub open spec fn two_digits(n: nat) -> Seq<char> {
    zero_pad(decimal(n), 2)
}

/// The text of a year; see `year_text`.
pub fn year_digits(year: i32) -> (r: Vec<char>)
    ensures
        r@ == year_text(year as int),
{
    if 0 <= year && year <= 9999 {
        zero_padded(&decimal_of(year as u64), 4)
    } else if year > 9999 {
        let mut v = chars_of("+");
        proof {
            reveal_strlit("+");
        }
        extend(&mut v, &decimal_of(year as u64));
        v
    } else {
        let mut v = chars_of("-");
        proof {
            reveal_strlit("-");
        }
        let magnitude: i64 = -(year as i64);
        extend(&mut v, &zero_padded(&decimal_of(magnitude as u64), 4));
        v
    }
}

/// Appends a number as two digits; see `two_digits`.
pub fn push_two_digits(v: &mut Vec<char>, n: u32)
    ensures
        final(v)@ == old(v)@ + two_digits(n as nat),
{
    extend(v, &zero_padded(&decimal_of(n as u64), 2));
}

} // verus!
