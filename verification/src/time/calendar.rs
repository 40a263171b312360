use chrono::{Datelike, NaiveDate, NaiveTime};
use crate::numerals::two_digits;
use vstd::prelude::*;

verus! {

/// The first day that a date can hold, counted in days from 1 January 1970:
/// 1 January of the year 262144 BCE.
pub const MIN_EPOCH_DAYS: i32 = -96_465_292;

/// The last day that a date can hold, counted in days from 1 January 1970:
/// 31 December of the year 262142 CE.
pub const MAX_EPOCH_DAYS: i32 = 95_026_236;

/// The day of the week, as its number of days since Monday, of the day that
/// lies `epoch_days` days after 1 January 1970 in the proleptic Gregorian
/// calendar: that day was a Thursday, and the days of the week follow one
/// another without a break.
pub open spec fn weekday_number(epoch_days: int) -> int {
    (epoch_days + 3) % 7
}

/// The day, counted from 1 January 1970, that the proleptic Gregorian
/// calendar calls `year`-`month`-`day`; `None` where the calendar has no such
/// day or it lies outside the range of dates.
pub uninterp spec fn civil_epoch_days(year: int, month: int, day: int) -> Option<int>;

/// `chrono::NaiveDate::weekday` of the date that `NaiveDate::from_epoch_days`
/// makes of `epoch_days`, as `Weekday::num_days_from_monday` numbers it.
///
/// Believed, not proved: the result is what `weekday_number` computes. The
/// range demanded of `epoch_days` is that of `NaiveDate`, so the date exists.
#[verifier::external_body]
pub(crate) fn weekday_number_of(epoch_days: i32) -> (n: u32)
    requires
        MIN_EPOCH_DAYS <= epoch_days <= MAX_EPOCH_DAYS,
    ensures
        n == weekday_number(epoch_days as int),
        n < 7,
{
    NaiveDate::from_epoch_days(epoch_days).unwrap().weekday().num_days_from_monday()
}

/// `chrono::NaiveDate::from_ymd_opt`, with the date it finds handed back as
/// `NaiveDate::to_epoch_days` counts it.
///
/// Believed, not proved: the result is what `civil_epoch_days` names, and a
/// day that is found lies within the range of dates.
#[verifier::external_body]
pub(crate) fn epoch_days_from_ymd(year: i32, month: u32, day: u32) -> (r: Option<i32>)
    ensures
        r matches Some(n) ==> civil_epoch_days(year as int, month as int, day as int) == Some(
            n as int,
        ) && MIN_EPOCH_DAYS <= n <= MAX_EPOCH_DAYS,
        r is None ==> civil_epoch_days(year as int, month as int, day as int) is None,
{
    match NaiveDate::from_ymd_opt(year, month, day) {
        Some(date) => Some(date.to_epoch_days()),
        None => None,
    }
}

/// The time of day `secs` seconds after midnight, written as hours and
/// minutes of two digits each with a colon between.
pub open spec fn clock_text(secs: int) -> Seq<char> {
    two_digits(secs / 3600) + seq![':'] + two_digits(secs / 60 % 60)
}

/// The day that lies `epoch_days` days after 1 January 1970, written as day,
/// month and year with dots between.
pub uninterp spec fn dotted_date_text(epoch_days: int) -> Seq<char>;

/// `chrono::NaiveTime::format` with the pattern `%H:%M`, of the time that
/// `NaiveTime::from_num_seconds_from_midnight_opt` makes of `secs` whole
/// seconds, as `to_string` renders it.
///
/// Believed, not proved: the result is what `clock_text` spells out. The range
/// demanded of `secs` is that of a day, so the time exists.
#[verifier::external_body]
pub(crate) fn clock(secs: u32) -> (r: String)
    requires
        secs < 86_400,
    ensures
        r@ == clock_text(secs as int),
{
    NaiveTime::from_num_seconds_from_midnight_opt(secs, 0).unwrap().format("%H:%M").to_string()
}

/// `chrono::NaiveDate::format` with the pattern `%d.%m.%Y`, of the date that
/// `NaiveDate::from_epoch_days` makes of `epoch_days`, as `to_string` renders
/// it.
///
/// Believed, not proved: the result is what `dotted_date_text` names. The
/// range demanded of `epoch_days` is that of `NaiveDate`, so the date exists.
#[verifier::external_body]
pub(crate) fn dotted_date(epoch_days: i32) -> (r: String)
    requires
        MIN_EPOCH_DAYS <= epoch_days <= MAX_EPOCH_DAYS,
    ensures
        r@ == dotted_date_text(epoch_days as int),
{
    NaiveDate::from_epoch_days(epoch_days).unwrap().format("%d.%m.%Y").to_string()
}

} // verus!
