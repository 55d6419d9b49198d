//! Wall-clock readings used to stamp log lines, jobs and recent paths,
//! and chrono's text of a reading.

use vstd::prelude::*;

use chrono::{Datelike, Timelike};


verus! {

#[verifier::external_type_specification]
#[verifier::external_body]
pub struct ExSystemTime(std::time::SystemTime);

/// A local wall-clock date and time, as its calendar fields.
#[derive(Debug, Clone, Copy, PartialEq, Eq, Structural)]
pub struct Stamp {
    /// The proleptic Gregorian year.
    pub year: i32,
    /// The month, from 1.
    pub month: u32,
    /// The day of the month, from 1.
    pub day: u32,
    pub hour: u32,
    pub minute: u32,
    pub second: u32,
    /// Nanoseconds since the whole second; from one second on, a leap
    /// second.
    pub nanosecond: u32,
}

/// What chrono writes for the date and time `s`: `NaiveDate::from_ymd_opt`
/// and `NaiveDate::and_hms_nano_opt` make the date-time from its fields,
/// and `format("%Y-%m-%d %H:%M:%S")` writes it; nothing when the fields
/// are not a date and time that chrono can hold.
pub uninterp spec fn stamp_format(s: Stamp) -> Option<Seq<char>>;

/// The current local wall-clock date and time: chrono's
/// `DateTime::<Local>::from(SystemTime::now())` (which, unlike
/// `Local::now`, also takes clock readings before 1970), taken as the
/// local date-time that it shows (`naive_local`), read out field by field
/// with chrono's `Datelike` and `Timelike` accessors.
/// Claimed: the ranges those accessors document (month 1 to 12, day 1 to
/// 31, hour 0 to 23, minute and second 0 to 59, nanosecond below two
/// seconds' worth, the second of them a leap second). Which time it is depends on the clock, so nothing more is promised.
#[verifier::external_body]
pub(crate) fn local_now() -> (r: Stamp)
    ensures
        1 <= r.month <= 12,
        1 <= r.day <= 31,
        r.hour <= 23,
        r.minute <= 59,
        r.second <= 59,
        r.nanosecond < 2_000_000_000,
{
    let t = chrono::DateTime::<chrono::Local>::from(std::time::SystemTime::now()).naive_local();
    Stamp {
        year: t.year(),
        month: t.month(),
        day: t.day(),
        hour: t.hour(),
        minute: t.minute(),
        second: t.second(),
        nanosecond: t.nanosecond(),
    }
}

/// chrono's text of the date and time `s` as `%Y-%m-%d %H:%M:%S`: the
/// date-time is made with `NaiveDate::from_ymd_opt` and
/// `NaiveDate::and_hms_nano_opt`, then written with `format`. Claimed: the
/// result is what `stamp_format` names for `s`.
#[verifier::external_body]
pub(crate) fn stamp_text(s: &Stamp) -> (r: Option<String>)
    ensures
        r.deep_view() == stamp_format(*s),
{
    match chrono::NaiveDate::from_ymd_opt(s.year, s.month, s.day) {
        Some(d) => match d.and_hms_nano_opt(s.hour, s.minute, s.second, s.nanosecond) {
            Some(t) => Some(t.format("%Y-%m-%d %H:%M:%S").to_string()),
            None => None,
        },
        None => None,
    }
}

/// The current system time, from `std::time::SystemTime::now`.
/// The reading depends on the clock, so nothing is promised of it.
#[verifier::external_body]
pub(crate) fn system_now() -> std::time::SystemTime {
    std::time::SystemTime::now()
}

} // verus!
