//! Calendar dates and clock times, checked and turned into UTC instants by
//! the `time` crate.

use vstd::prelude::*;

use time::error::ComponentRange;
use time::Date;
use time::Month;
use time::OffsetDateTime;
use time::PrimitiveDateTime;
use time::Time;

verus! {

#[verifier::external_type_specification]
#[verifier::external_body]
pub struct ExDate(Date);

#[verifier::external_type_specification]
#[verifier::external_body]
pub struct ExTime(Time);

/// A plain enum of unit variants, declared with its variants so that
/// contracts can tell the months apart.
#[verifier::external_type_specification]
pub struct ExMonth(Month);

#[verifier::external_type_specification]
#[verifier::external_body]
pub struct ExPrimitiveDateTime(PrimitiveDateTime);

#[verifier::external_type_specification]
#[verifier::external_body]
pub struct ExOffsetDateTime(OffsetDateTime);

#[verifier::external_type_specification]
#[verifier::external_body]
pub struct ExComponentRange(ComponentRange);

/// Leap years of the proleptic Gregorian calendar.
pub open spec fn is_leap_year(year: int) -> bool {
    year % 4 == 0 && (year % 100 != 0 || year % 400 == 0)
}

/// The number of days of a month (1 to 12) in a year.
pub open spec fn days_in_month(year: int, month: int) -> int {
    if month == 2 {
        if is_leap_year(year) {
            29
        } else {
            28
        }
    } else if month == 4 || month == 6 || month == 9 || month == 11 {
        30
    } else {
        31
    }
}

/// A month from 1 to 12 and a day that the month has.
pub open spec fn valid_calendar_date(year: int, month: int, day: int) -> bool {
    1 <= month <= 12 && 1 <= day <= days_in_month(year, month)
}

/// An hour, minute and second of a day.
pub open spec fn valid_clock_time(hour: int, minute: int, second: int) -> bool {
    hour < 24 && minute < 60 && second < 60
}

/// The number of a month, January being 1.
pub open spec fn month_number(m: Month) -> int {
    match m {
        Month::January => 1,
        Month::February => 2,
        Month::March => 3,
        Month::April => 4,
        Month::May => 5,
        Month::June => 6,
        Month::July => 7,
        Month::August => 8,
        Month::September => 9,
        Month::October => 10,
        Month::November => 11,
        Month::December => 12,
    }
}

/// `time::Month`'s `TryFrom<u8>` accepts 1 to 12, January being 1.
pub assume_specification[ <Month as TryFrom<u8>>::try_from ](value: u8) -> (r: Result<
    Month,
    <Month as TryFrom<u8>>::Error,
>)
    ensures
        r is Ok <==> 1 <= value <= 12,
        r matches Ok(m) ==> month_number(m) == value,
;

/// `time::Date::from_calendar_date` accepts a day that the month has in
/// that year of the proleptic Gregorian calendar, for every year from -9999
/// to 9999 (more with the crate's `large-dates` feature).
pub assume_specification[ Date::from_calendar_date ](year: i32, month: Month, day: u8) -> (r: Result<
    Date,
    ComponentRange,
>)
    ensures
        r is Ok ==> valid_calendar_date(year as int, month_number(month), day as int),
        valid_calendar_date(year as int, month_number(month), day as int) && -9999 <= year
            <= 9999 ==> r is Ok,
;

/// `time::Time::from_hms` accepts an hour below 24, a minute and a second
/// below 60.
pub assume_specification[ Time::from_hms ](hour: u8, minute: u8, second: u8) -> (r: Result<
    Time,
    ComponentRange,
>)
    ensures
        r is Ok <==> valid_clock_time(hour as int, minute as int, second as int),
;

/// `time::PrimitiveDateTime::new` pairs a date with a time of day.
pub assume_specification[ PrimitiveDateTime::new ](date: Date, time: Time) -> PrimitiveDateTime;

/// `time::PrimitiveDateTime::assume_utc` reads the date and time as UTC.
pub assume_specification[ PrimitiveDateTime::assume_utc ](dt: PrimitiveDateTime) -> OffsetDateTime;

/// Which part of a date and time was out of range.
#[derive(Debug, Clone, Copy, PartialEq, Eq, Structural)]
pub enum DateTimeError {
    InvalidDate,
    InvalidTime,
}

/// A calendar date and a clock time read at offset UTC, with the instant
/// that `utc_datetime` had the `time` crate build from exactly these values.
pub struct UtcDateTime {
    pub year: i32,
    pub month: u8,
    pub day: u8,
    pub hour: u8,
    pub minute: u8,
    pub second: u8,
    /// What `PrimitiveDateTime::assume_utc` made of the date and time built
    /// from the fields above.
    pub instant: OffsetDateTime,
}

/// The date and time that the components name, read as UTC; the date is
/// checked first. The components are kept as they were given.
pub fn utc_datetime(year: i32, month: u8, day: u8, hour: u8, minute: u8, second: u8) -> (r: Result<
    UtcDateTime,
    DateTimeError,
>)
    ensures
        r matches Ok(t) ==> t.year == year && t.month == month && t.day == day && t.hour == hour
            && t.minute == minute && t.second == second,
        r is Ok ==> valid_calendar_date(year as int, month as int, day as int) && valid_clock_time(
            hour as int,
            minute as int,
            second as int,
        ),
        !valid_calendar_date(year as int, month as int, day as int) ==> r is Err && r->Err_0
            == DateTimeError::InvalidDate,
        valid_calendar_date(year as int, month as int, day as int) && -9999 <= year <= 9999 ==> (
        r is Ok <==> valid_clock_time(hour as int, minute as int, second as int)),
        r is Err && r->Err_0 == DateTimeError::InvalidTime ==> !valid_clock_time(
            hour as int,
            minute as int,
            second as int,
        ),
        valid_calendar_date(year as int, month as int, day as int) && -9999 <= year <= 9999
            && !valid_clock_time(hour as int, minute as int, second as int) ==> r is Err
            && r->Err_0 == DateTimeError::InvalidTime,
{
    let checked_month = match Month::try_from(month) {
        Ok(m) => m,
        Err(_) => return Err(DateTimeError::InvalidDate),
    };
    let date = match Date::from_calendar_date(year, checked_month, day) {
        Ok(date) => date,
        Err(_) => return Err(DateTimeError::InvalidDate),
    };
    let time = match Time::from_hms(hour, minute, second) {
        Ok(time) => time,
        Err(_) => return Err(DateTimeError::InvalidTime),
    };
    let instant = PrimitiveDateTime::new(date, time).assume_utc();
    Ok(UtcDateTime { year, month, day, hour, minute, second, instant })
}

} // verus!
