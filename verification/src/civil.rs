use vstd::prelude::*;

verus! {

/// The smallest year of a date representable by the `time` crate.
pub const MIN_YEAR: i32 = -9999;

/// The largest year of a date representable by the `time` crate.
pub const MAX_YEAR: i32 = 9999;

/// The Julian day number of the first representable date,
/// `MIN_YEAR`-01-01.
pub const MIN_JULIAN_DAY: i32 = -1_930_999;

/// The Julian day number of the last representable date,
/// `MAX_YEAR`-12-31.
pub const MAX_JULIAN_DAY: i32 = 5_373_484;

/// Whether `year` is a leap year in the proleptic Gregorian calendar:
/// divisible by 4 but not by 100, or divisible by 400.
pub open spec fn is_leap_year_spec(year: int) -> bool {
    (year % 4 == 0 && year % 100 != 0) || year % 400 == 0
}

/// The number of days in `month` of `year` in the proleptic Gregorian
/// calendar, or 0 when `month` is not in `1..=12`.
pub open spec fn days_in_month_spec(year: int, month: int) -> int {
    if month == 2 {
        if is_leap_year_spec(year) {
            29
        } else {
            28
        }
    } else if month == 4 || month == 6 || month == 9 || month == 11 {
        30
    } else if 1 <= month <= 12 {
        31
    } else {
        0
    }
}

/// Whether `year` is a leap year in the proleptic Gregorian calendar.
fn is_leap_year(year: i64) -> (r: bool)
    ensures
        r == is_leap_year_spec(year as int),
{
    let rem4: i64 = year.checked_rem_euclid(4).unwrap_or(1);
    let rem100: i64 = year.checked_rem_euclid(100).unwrap_or(1);
    let rem400: i64 = year.checked_rem_euclid(400).unwrap_or(1);
    (rem4 == 0 && rem100 != 0) || rem400 == 0
}

/// Calculate the number of days in a month.
///
/// Returns the month's length in the proleptic Gregorian calendar, or 0 if
/// the month is invalid (e.g. 13).
pub fn num_days_in_month(year: i64, month: u8) -> (r: u8)
    ensures
        r == days_in_month_spec(year as int, month as int),
{
    match month {
        2 => if is_leap_year(year) {
            29
        } else {
            28
        },
        4 | 6 | 9 | 11 => 30,
        1 | 3 | 5 | 7 | 8 | 10 | 12 => 31,
        _ => 0,
    }
}

/// A concrete calendar date-time in the proleptic Gregorian calendar,
/// held as plain field values with no time zone attached.
///
/// This is the shape of date-time that a `RelativeDelta` is applied to;
/// the embedding environment converts between it and its own date-time
/// representation.
#[derive(Clone, Copy, Debug, PartialEq)]
pub struct CivilDateTime {
    /// Calendar year (astronomical numbering: year 0 exists).
    pub year: i32,
    /// Month of the year, 1-12.
    pub month: u8,
    /// Day of the month, 1 up to the month's length.
    pub day: u8,
    /// Hour of the day, 0-23.
    pub hour: u8,
    /// Minute of the hour, 0-59.
    pub minute: u8,
    /// Second of the minute, 0-59.
    pub second: u8,
    /// Nanoseconds within the second, 0-999,999,999.
    pub nanosecond: u32,
}

impl CivilDateTime {
    /// Whether the fields denote a real calendar date and time of day:
    /// the month exists, the day lies within the month's length, and each
    /// time-of-day field is in range.
    pub open spec fn wf(self) -> bool {
        &&& 1 <= self.month <= 12
        &&& 1 <= self.day <= days_in_month_spec(self.year as int, self.month as int)
        &&& self.hour <= 23
        &&& self.minute <= 59
        &&& self.second <= 59
        &&& self.nanosecond <= 999_999_999
    }

    /// Construct a date-time from its fields, or `None` when they do not
    /// denote a real calendar date and time of day.
    pub fn new(
        year: i32,
        month: u8,
        day: u8,
        hour: u8,
        minute: u8,
        second: u8,
        nanosecond: u32,
    ) -> (r: Option<CivilDateTime>)
        ensures
            r matches Some(t) ==> t == (CivilDateTime {
                year,
                month,
                day,
                hour,
                minute,
                second,
                nanosecond,
            }) && t.wf(),
            r is None ==> !(CivilDateTime {
                year,
                month,
                day,
                hour,
                minute,
                second,
                nanosecond,
            }).wf(),
    {
        let valid: bool = 1 <= month && month <= 12 && 1 <= day
            && day <= num_days_in_month(year as i64, month) && hour <= 23 && minute <= 59
            && second <= 59 && nanosecond <= 999_999_999;
        if valid {
            Some(CivilDateTime { year, month, day, hour, minute, second, nanosecond })
        } else {
            None
        }
    }
}

/// The Julian day number that the `time` crate assigns to the calendar
/// date `(year, month, day)`.
pub uninterp spec fn julian_day_of(year: int, month: int, day: int) -> int;

/// The calendar date `(year, month, day)` that the `time` crate assigns
/// to a Julian day number.
pub uninterp spec fn civil_of_julian_day(julian_day: int) -> (int, int, int);

/// Relies on `time::Date::from_calendar_date` and
/// `time::Date::to_julian_day`: a date is accepted exactly when its year
/// is within the representable range and its day is within the month's
/// length, and the Julian day number of an accepted date depends on the
/// date alone.
#[verifier::external_body]
pub(crate) fn julian_day_from_ymd(year: i32, month: u8, day: u8) -> (r: Option<i32>)
    ensures
        r is Some <==> (MIN_YEAR <= year <= MAX_YEAR && 1 <= month <= 12 && 1 <= day
            <= days_in_month_spec(year as int, month as int)),
        r matches Some(j) ==> j == julian_day_of(year as int, month as int, day as int),
{
    let month = time::Month::try_from(month).ok()?;
    let date = time::Date::from_calendar_date(year, month, day).ok()?;
    Some(date.to_julian_day())
}

/// Relies on `time::Date::from_julian_day` and its `year`, `month` and
/// `day` accessors: a Julian day number is accepted exactly when it lies
/// between the numbers of the first and last representable dates, and the
/// fields of the date it denotes depend on the number alone and form a
/// valid calendar date.
#[verifier::external_body]
pub(crate) fn ymd_from_julian_day(julian_day: i32) -> (r: Option<(i32, u8, u8)>)
    ensures
        r is Some <==> MIN_JULIAN_DAY <= julian_day <= MAX_JULIAN_DAY,
        r matches Some(ymd) ==> (ymd.0 as int, ymd.1 as int, ymd.2 as int)
            == civil_of_julian_day(julian_day as int) && MIN_YEAR <= ymd.0 <= MAX_YEAR && 1
            <= ymd.1 <= 12 && 1 <= ymd.2 <= days_in_month_spec(ymd.0 as int, ymd.1 as int),
{
    let date = time::Date::from_julian_day(julian_day).ok()?;
    Some((date.year(), u8::from(date.month()), date.day()))
}

} // verus!
