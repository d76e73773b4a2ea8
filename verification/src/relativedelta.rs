use vstd::prelude::*;

use vstd::arithmetic::div_mod::lemma_basic_div;
use vstd::arithmetic::div_mod::lemma_div_nonincreasing;
use vstd::arithmetic::div_mod::lemma_div_pos_is_pos;
use vstd::arithmetic::div_mod::lemma_fundamental_div_mod;
use vstd::arithmetic::div_mod::lemma_mod_bound;

use crate::weekday::Weekday;

verus! {

/// Nanoseconds in one second: the carry base from nanoseconds to seconds.
pub const NANOS_PER_SECOND: i64 = 1_000_000_000;

/// Seconds in one minute: the carry base from seconds to minutes.
pub const SECONDS_PER_MINUTE: i64 = 60;

/// Minutes in one hour: the carry base from minutes to hours.
pub const MINUTES_PER_HOUR: i64 = 60;

/// Hours in one day: the carry base from hours to days.
pub const HOURS_PER_DAY: i64 = 24;

/// Months in one year: the carry base from months to years.
pub const MONTHS_PER_YEAR: i64 = 12;

/// Truncating division (rounding toward zero), as performed by machine
/// division on signed integers.  Defined for positive divisors.
pub open spec fn tdiv(a: int, b: int) -> int {
    if a >= 0 {
        a / b
    } else {
        -((-a) / b)
    }
}

/// The remainder matching `tdiv`: same sign as the dividend, with
/// `a == b * tdiv(a, b) + tmod(a, b)`.
pub open spec fn tmod(a: int, b: int) -> int {
    a - b * tdiv(a, b)
}

/// Bounds of truncating division and remainder for a positive divisor:
/// the quotient never grows in magnitude and the remainder stays strictly
/// within the divisor, carrying the dividend's sign.
pub proof fn lemma_tdiv_tmod_bounds(a: int, b: int)
    requires
        2 <= b,
    ensures
        a >= 0 ==> 0 <= tdiv(a, b) <= a && 0 <= tmod(a, b) < b && tmod(a, b) == a % b,
        a < 0 ==> a <= tdiv(a, b) <= 0 && -b < tmod(a, b) <= 0 && tmod(a, b) == -((-a) % b),
        a == b * tdiv(a, b) + tmod(a, b),
{
    if a >= 0 {
        lemma_div_pos_is_pos(a, b);
        lemma_div_nonincreasing(a, b);
        lemma_fundamental_div_mod(a, b);
        lemma_mod_bound(a, b);
        assert(tmod(a, b) == a % b);
    } else {
        lemma_div_pos_is_pos(-a, b);
        lemma_div_nonincreasing(-a, b);
        lemma_fundamental_div_mod(-a, b);
        lemma_mod_bound(-a, b);
        assert(b * (-((-a) / b)) == -(b * ((-a) / b))) by (nonlinear_arith);
        assert(tmod(a, b) == -((-a) % b));
    }
}

/// A zero dividend divides to zero and leaves no remainder.
pub proof fn lemma_tdiv_tmod_of_zero(b: int)
    requires
        2 <= b,
    ensures
        tdiv(0, b) == 0,
        tmod(0, b) == 0,
{
    lemma_basic_div(0, b);
}

/// A dividend already strictly within the divisor is left unchanged:
/// the quotient is zero and the remainder is the dividend itself.
pub proof fn lemma_tdiv_tmod_small(a: int, b: int)
    requires
        2 <= b,
        -b < a < b,
    ensures
        tdiv(a, b) == 0,
        tmod(a, b) == a,
{
    if a >= 0 {
        lemma_basic_div(a, b);
    } else {
        lemma_basic_div(-a, b);
    }
}

/// The absolute field that failed its range check when a `RelativeDelta`
/// was built.
#[derive(Clone, Copy, Debug, PartialEq, Eq, Structural)]
pub enum BuildError {
    /// The absolute month override was outside `1..=12`.
    InvalidMonth,
    /// The absolute day override was outside `1..=31`.
    InvalidDay,
    /// The absolute hour override was outside `0..=23`.
    InvalidHour,
    /// The absolute minute override was outside `0..=59`.
    InvalidMinute,
    /// The absolute second override was outside `0..=59`.
    InvalidSecond,
    /// The absolute nanosecond override was outside `0..=999_999_999`.
    InvalidNanosecond,
}

/// Builder for `RelativeDelta`.
///
/// Batch creation and further modification of relative and absolute time
/// parameters before normalization keeps them within meaningful boundaries.
///
/// You should not need to construct the builder manually but use the
/// convenience construction methods on `RelativeDelta`.
#[derive(Clone, Copy, Debug)]
pub struct Builder {
    /// Relative years offset.
    pub years: i64,
    /// Relative months offset.
    pub months: i64,
    /// IEEE-754 bit pattern of the fractional-month remainder, kept because
    /// month lengths are irregular and fractional months cannot be promoted
    /// to days.
    pub months_f_bits: u64,
    /// Relative days offset.
    pub days: i64,
    /// Relative hours offset.
    pub hours: i64,
    /// Relative minutes offset.
    pub minutes: i64,
    /// Relative seconds offset.
    pub seconds: i64,
    /// Relative nanoseconds offset.
    pub nanoseconds: i64,
    /// Absolute year override.
    pub year: Option<i64>,
    /// Absolute month override (1-12).
    pub month: Option<u8>,
    /// Absolute day override (1-31).
    pub day: Option<u8>,
    /// Weekday constraint: the nth occurrence of a weekday at-or-after
    /// (positive n) or at-or-before (negative n) the computed date.
    pub weekday: Option<(Weekday, i64)>,
    /// Absolute hour override (0-23).
    pub hour: Option<u8>,
    /// Absolute minute override (0-59).
    pub minute: Option<u8>,
    /// Absolute second override (0-59).
    pub second: Option<u8>,
    /// Absolute nanosecond override (0-999,999,999).
    pub nanosecond: Option<u32>,
}

/// A composite date-time offset: relative offsets for each unit of time,
/// optional absolute overrides for each calendar field, and an optional
/// weekday constraint.
///
/// A `RelativeDelta` is produced only by finalizing a [`Builder`] and is
/// normalized: every relative field except `years` and `days` lies within
/// its canonical per-unit bound, with any excess carried into the next
/// larger unit, sign-preserving.
#[derive(Clone, Copy, Debug, PartialEq)]
pub struct RelativeDelta {
    /// Relative years offset.
    pub years: i64,
    /// Relative months offset, within `-11..=11` after normalization.
    pub months: i64,
    /// IEEE-754 bit pattern of the fractional-month remainder.
    pub months_f_bits: u64,
    /// Relative days offset.
    pub days: i64,
    /// Relative hours offset, within `-23..=23` after normalization.
    pub hours: i64,
    /// Relative minutes offset, within `-59..=59` after normalization.
    pub minutes: i64,
    /// Relative seconds offset, within `-59..=59` after normalization.
    pub seconds: i64,
    /// Relative nanoseconds offset, within `-999_999_999..=999_999_999`
    /// after normalization.
    pub nanoseconds: i64,
    /// Absolute year override.
    pub year: Option<i64>,
    /// Absolute month override (1-12).
    pub month: Option<u8>,
    /// Absolute day override (1-31).
    pub day: Option<u8>,
    /// Absolute hour override (0-23).
    pub hour: Option<u8>,
    /// Absolute minute override (0-59).
    pub minute: Option<u8>,
    /// Absolute second override (0-59).
    pub second: Option<u8>,
    /// Absolute nanosecond override (0-999,999,999).
    pub nanosecond: Option<u32>,
    /// Weekday constraint: the nth occurrence of a weekday at-or-after
    /// (positive n) or at-or-before (negative n) the computed date.
    pub weekday: Option<(Weekday, i64)>,
}

impl Builder {
    /// Whether every absolute override that is present lies in its valid
    /// calendar range.
    pub open spec fn absolutes_in_range(self) -> bool {
        &&& (self.month matches Some(m) ==> 1 <= m <= 12)
        &&& (self.day matches Some(d) ==> 1 <= d <= 31)
        &&& (self.hour matches Some(h) ==> h <= 23)
        &&& (self.minute matches Some(m) ==> m <= 59)
        &&& (self.second matches Some(s) ==> s <= 59)
        &&& (self.nanosecond matches Some(n) ==> n <= 999_999_999)
    }

    /// Total seconds after carrying the nanosecond excess upward.
    pub open spec fn carried_seconds(self) -> int {
        self.seconds + tdiv(self.nanoseconds as int, NANOS_PER_SECOND as int)
    }

    /// Total minutes after carrying the second excess upward.
    pub open spec fn carried_minutes(self) -> int {
        self.minutes + tdiv(self.carried_seconds(), SECONDS_PER_MINUTE as int)
    }

    /// Total hours after carrying the minute excess upward.
    pub open spec fn carried_hours(self) -> int {
        self.hours + tdiv(self.carried_minutes(), MINUTES_PER_HOUR as int)
    }

    /// Total days after carrying the hour excess upward.
    pub open spec fn carried_days(self) -> int {
        self.days + tdiv(self.carried_hours(), HOURS_PER_DAY as int)
    }

    /// Total years after carrying the month excess upward.
    pub open spec fn carried_years(self) -> int {
        self.years + tdiv(self.months as int, MONTHS_PER_YEAR as int)
    }

    /// Whether every intermediate sum of the carry propagation fits in the
    /// field type, so that normalization cannot overflow.
    pub open spec fn carries_fit(self) -> bool {
        &&& i64::MIN <= self.carried_seconds() <= i64::MAX
        &&& i64::MIN <= self.carried_minutes() <= i64::MAX
        &&& i64::MIN <= self.carried_hours() <= i64::MAX
        &&& i64::MIN <= self.carried_days() <= i64::MAX
        &&& i64::MIN <= self.carried_years() <= i64::MAX
    }

    /// The delta this builder finalizes to: the relative fields after
    /// sign-preserving carry propagation from nanoseconds up through
    /// seconds, minutes, hours and days, and from months into years, with
    /// the absolute fields passed through unchanged.
    pub open spec fn built(self) -> RelativeDelta {
        RelativeDelta {
            years: self.carried_years() as i64,
            months: tmod(self.months as int, MONTHS_PER_YEAR as int) as i64,
            months_f_bits: self.months_f_bits,
            days: self.carried_days() as i64,
            hours: tmod(self.carried_hours(), HOURS_PER_DAY as int) as i64,
            minutes: tmod(self.carried_minutes(), MINUTES_PER_HOUR as int) as i64,
            seconds: tmod(self.carried_seconds(), SECONDS_PER_MINUTE as int) as i64,
            nanoseconds: tmod(self.nanoseconds as int, NANOS_PER_SECOND as int) as i64,
            year: self.year,
            month: self.month,
            day: self.day,
            hour: self.hour,
            minute: self.minute,
            second: self.second,
            nanosecond: self.nanosecond,
            weekday: self.weekday,
        }
    }

    /// The first absolute override outside its calendar range, in the order
    /// the ranges are checked, or `None` when all are valid.
    pub open spec fn first_invalid_absolute(self) -> Option<BuildError> {
        if !(self.month matches Some(m) ==> 1 <= m <= 12) {
            Some(BuildError::InvalidMonth)
        } else if !(self.day matches Some(d) ==> 1 <= d <= 31) {
            Some(BuildError::InvalidDay)
        } else if !(self.hour matches Some(h) ==> h <= 23) {
            Some(BuildError::InvalidHour)
        } else if !(self.minute matches Some(m) ==> m <= 59) {
            Some(BuildError::InvalidMinute)
        } else if !(self.second matches Some(s) ==> s <= 59) {
            Some(BuildError::InvalidSecond)
        } else if !(self.nanosecond matches Some(n) ==> n <= 999_999_999) {
            Some(BuildError::InvalidNanosecond)
        } else {
            None
        }
    }

    /// Build a `RelativeDelta` from the set parameters, validating the
    /// absolute overrides and normalizing the relative fields.
    ///
    /// An absolute override outside its calendar range is a caller error
    /// and is reported as the corresponding [`BuildError`]; it is never
    /// silently clamped or wrapped.
    pub fn try_build(&self) -> (r: Result<RelativeDelta, BuildError>)
        requires
            self.carries_fit(),
        ensures
            r == (match self.first_invalid_absolute() {
                Some(e) => Err::<RelativeDelta, BuildError>(e),
                None => Ok::<RelativeDelta, BuildError>(self.built()),
            }),
            r matches Ok(d) ==> d.is_normalized(),
    {
        if let Some(m) = self.month {
            if !(1 <= m && m <= 12) {
                return Err(BuildError::InvalidMonth);
            }
        }
        if let Some(d) = self.day {
            if !(1 <= d && d <= 31) {
                return Err(BuildError::InvalidDay);
            }
        }
        if let Some(h) = self.hour {
            if !(h <= 23) {
                return Err(BuildError::InvalidHour);
            }
        }
        if let Some(m) = self.minute {
            if !(m <= 59) {
                return Err(BuildError::InvalidMinute);
            }
        }
        if let Some(s) = self.second {
            if !(s <= 59) {
                return Err(BuildError::InvalidSecond);
            }
        }
        if let Some(n) = self.nanosecond {
            if !(n <= 999_999_999) {
                return Err(BuildError::InvalidNanosecond);
            }
        }
        Ok(self.normalize())
    }

    /// Build a `RelativeDelta` from the set parameters.
    ///
    /// This method normalizes the relative parameters and fixes them to be
    /// within meaningful boundaries.  The absolute overrides must already
    /// be within their calendar ranges; [`Builder::try_build`] reports an
    /// out-of-range override as an error instead.
    pub fn build(&self) -> (r: RelativeDelta)
        requires
            self.carries_fit(),
            self.absolutes_in_range(),
        ensures
            r == self.built(),
            r.is_normalized(),
    {
        self.normalize()
    }

    /// Construct a new `RelativeDelta`.
    ///
    /// Returns a fixed `RelativeDelta` where time parameters are within
    /// meaningful boundaries.
    pub fn new(&self) -> (r: RelativeDelta)
        requires
            self.carries_fit(),
            self.absolutes_in_range(),
        ensures
            r == self.built(),
            r.is_normalized(),
    {
        self.build()
    }

    /// Sign-preserving carry propagation of the relative fields.
    fn normalize(&self) -> (r: RelativeDelta)
        requires
            self.carries_fit(),
        ensures
            r == self.built(),
            -11 <= r.months <= 11,
            -23 <= r.hours <= 23,
            -59 <= r.minutes <= 59,
            -59 <= r.seconds <= 59,
            -999_999_999 <= r.nanoseconds <= 999_999_999,
    {
        let (sec_carry, nanoseconds): (i64, i64) = carry_step(self.nanoseconds, NANOS_PER_SECOND);
        let total_seconds: i64 = self.seconds + sec_carry;
        let (min_carry, seconds): (i64, i64) = carry_step(total_seconds, SECONDS_PER_MINUTE);
        let total_minutes: i64 = self.minutes + min_carry;
        let (hour_carry, minutes): (i64, i64) = carry_step(total_minutes, MINUTES_PER_HOUR);
        let total_hours: i64 = self.hours + hour_carry;
        let (day_carry, hours): (i64, i64) = carry_step(total_hours, HOURS_PER_DAY);
        let days: i64 = self.days + day_carry;
        let (year_carry, months): (i64, i64) = carry_step(self.months, MONTHS_PER_YEAR);
        let years: i64 = self.years + year_carry;
        RelativeDelta {
            years,
            months,
            months_f_bits: self.months_f_bits,
            days,
            hours,
            minutes,
            seconds,
            nanoseconds,
            year: self.year,
            month: self.month,
            day: self.day,
            hour: self.hour,
            minute: self.minute,
            second: self.second,
            nanosecond: self.nanosecond,
            weekday: self.weekday,
        }
    }
}

/// One stage of the carry propagation: split `value` into the amount
/// carried into the next larger unit and the remainder kept in this unit,
/// both truncating toward zero so that the remainder keeps the sign of
/// `value`.
fn carry_step(value: i64, base: i64) -> (r: (i64, i64))
    requires
        2 <= base,
    ensures
        r.0 == tdiv(value as int, base as int),
        r.1 == tmod(value as int, base as int),
        -(base - 1) <= r.1 <= base - 1,
{
    proof {
        lemma_tdiv_tmod_bounds(value as int, base as int);
        if value == 0 {
            lemma_tdiv_tmod_of_zero(base as int);
        }
    }
    let div: i64 = value.checked_div(base).unwrap_or(0);
    let rem: i64 = value.checked_rem(base).unwrap_or(0);
    (div, rem)
}

impl Builder {
    /// A builder with every relative field zero and every override unset.
    pub open spec fn empty() -> Builder {
        Builder {
            years: 0,
            months: 0,
            months_f_bits: 0,
            days: 0,
            hours: 0,
            minutes: 0,
            seconds: 0,
            nanoseconds: 0,
            year: None,
            month: None,
            day: None,
            weekday: None,
            hour: None,
            minute: None,
            second: None,
            nanosecond: None,
        }
    }

    /// Set or update the absolute year override on the builder.  A
    /// previously set value is overwritten.
    pub fn and_year(self, year: Option<i64>) -> (r: Self)
        ensures
            r == (Builder { year: year, ..self }),
    {
        Builder { year, ..self }
    }

    /// Set or update the relative years offset on the builder.  A
    /// previously set value is overwritten.
    pub fn and_years(self, years: i64) -> (r: Self)
        ensures
            r == (Builder { years: years, ..self }),
    {
        Builder { years, ..self }
    }

    /// Set or update the absolute month override on the builder.  A
    /// previously set value is overwritten.
    pub fn and_month(self, month: Option<u8>) -> (r: Self)
        ensures
            r == (Builder { month: month, ..self }),
    {
        Builder { month, ..self }
    }

    /// Set or update the relative months offset on the builder.  A
    /// previously set value is overwritten.
    pub fn and_months(self, months: i64) -> (r: Self)
        ensures
            r == (Builder { months: months, ..self }),
    {
        Builder { months, ..self }
    }

    /// Set or update the fractional-month remainder on the builder, given
    /// as the IEEE-754 bit pattern of the fraction.  A previously set value
    /// is overwritten.
    pub fn and_months_f_bits(self, months_f_bits: u64) -> (r: Self)
        ensures
            r == (Builder { months_f_bits: months_f_bits, ..self }),
    {
        Builder { months_f_bits, ..self }
    }

    /// Set or update the absolute day override on the builder.  A
    /// previously set value is overwritten.
    pub fn and_day(self, day: Option<u8>) -> (r: Self)
        ensures
            r == (Builder { day: day, ..self }),
    {
        Builder { day, ..self }
    }

    /// Set or update the relative days offset on the builder.  A
    /// previously set value is overwritten.
    pub fn and_days(self, days: i64) -> (r: Self)
        ensures
            r == (Builder { days: days, ..self }),
    {
        Builder { days, ..self }
    }

    /// Set or update the weekday constraint on the builder.  A previously
    /// set value is overwritten.
    pub fn and_weekday(self, weekday: Option<(Weekday, i64)>) -> (r: Self)
        ensures
            r == (Builder { weekday: weekday, ..self }),
    {
        Builder { weekday, ..self }
    }

    /// Set or update the absolute hour override on the builder.  A
    /// previously set value is overwritten.
    pub fn and_hour(self, hour: Option<u8>) -> (r: Self)
        ensures
            r == (Builder { hour: hour, ..self }),
    {
        Builder { hour, ..self }
    }

    /// Set or update the relative hours offset on the builder.  A
    /// previously set value is overwritten.
    pub fn and_hours(self, hours: i64) -> (r: Self)
        ensures
            r == (Builder { hours: hours, ..self }),
    {
        Builder { hours, ..self }
    }

    /// Set or update the absolute minute override on the builder.  A
    /// previously set value is overwritten.
    pub fn and_minute(self, minute: Option<u8>) -> (r: Self)
        ensures
            r == (Builder { minute: minute, ..self }),
    {
        Builder { minute, ..self }
    }

    /// Set or update the relative minutes offset on the builder.  A
    /// previously set value is overwritten.
    pub fn and_minutes(self, minutes: i64) -> (r: Self)
        ensures
            r == (Builder { minutes: minutes, ..self }),
    {
        Builder { minutes, ..self }
    }

    /// Set or update the absolute second override on the builder.  A
    /// previously set value is overwritten.
    pub fn and_second(self, second: Option<u8>) -> (r: Self)
        ensures
            r == (Builder { second: second, ..self }),
    {
        Builder { second, ..self }
    }

    /// Set or update the relative seconds offset on the builder.  A
    /// previously set value is overwritten.
    pub fn and_seconds(self, seconds: i64) -> (r: Self)
        ensures
            r == (Builder { seconds: seconds, ..self }),
    {
        Builder { seconds, ..self }
    }

    /// Set or update the absolute nanosecond override on the builder.  A
    /// previously set value is overwritten.
    pub fn and_nanosecond(self, nanosecond: Option<u32>) -> (r: Self)
        ensures
            r == (Builder { nanosecond: nanosecond, ..self }),
    {
        Builder { nanosecond, ..self }
    }

    /// Set or update the relative nanoseconds offset on the builder.  A
    /// previously set value is overwritten.
    pub fn and_nanoseconds(self, nanoseconds: i64) -> (r: Self)
        ensures
            r == (Builder { nanoseconds: nanoseconds, ..self }),
    {
        Builder { nanoseconds, ..self }
    }

    /// Convenience method to set or update the year, relative years,
    /// month, relative months, day and relative days while building a
    /// `RelativeDelta`.
    pub fn and_yysmmsdds(
        self,
        year: Option<i64>,
        years: i64,
        month: Option<u8>,
        months: i64,
        day: Option<u8>,
        days: i64,
    ) -> (r: Self)
        ensures
            r == (Builder {
                year: year,
                years: years,
                month: month,
                months: months,
                day: day,
                days: days,
                ..self
            }),
    {
        Builder { year, years, month, months, day, days, ..self }
    }

    /// Convenience method to set or update the hour, relative hours,
    /// minute, relative minutes, second and relative seconds while
    /// building a `RelativeDelta`.
    pub fn and_hhsmmssss(
        self,
        hour: Option<u8>,
        hours: i64,
        minute: Option<u8>,
        minutes: i64,
        second: Option<u8>,
        seconds: i64,
    ) -> (r: Self)
        ensures
            r == (Builder {
                hour: hour,
                hours: hours,
                minute: minute,
                minutes: minutes,
                second: second,
                seconds: seconds,
                ..self
            }),
    {
        Builder { hour, hours, minute, minutes, second, seconds, ..self }
    }
}

impl core::default::Default for Builder {
    /// A builder with every relative field zero and every override unset.
    fn default() -> (r: Self)
        ensures
            r == Builder::empty(),
    {
        Builder {
            years: 0,
            months: 0,
            months_f_bits: 0,
            days: 0,
            hours: 0,
            minutes: 0,
            seconds: 0,
            nanoseconds: 0,
            year: None,
            month: None,
            day: None,
            weekday: None,
            hour: None,
            minute: None,
            second: None,
            nanosecond: None,
        }
    }
}

impl RelativeDelta {
    /// Whether every absolute override that is present lies in its valid
    /// calendar range.
    pub open spec fn absolutes_in_range(self) -> bool {
        &&& (self.month matches Some(m) ==> 1 <= m <= 12)
        &&& (self.day matches Some(d) ==> 1 <= d <= 31)
        &&& (self.hour matches Some(h) ==> h <= 23)
        &&& (self.minute matches Some(m) ==> m <= 59)
        &&& (self.second matches Some(s) ==> s <= 59)
        &&& (self.nanosecond matches Some(n) ==> n <= 999_999_999)
    }

    /// The invariant established by building: each relative field except
    /// `years` and `days` lies within its canonical per-unit bound, and
    /// each absolute override lies in its calendar range.
    pub open spec fn is_normalized(self) -> bool {
        &&& -11 <= self.months <= 11
        &&& -23 <= self.hours <= 23
        &&& -59 <= self.minutes <= 59
        &&& -59 <= self.seconds <= 59
        &&& -999_999_999 <= self.nanoseconds <= 999_999_999
        &&& self.absolutes_in_range()
    }

    /// A delta with every relative field zero and every override unset.
    pub open spec fn zero() -> RelativeDelta {
        RelativeDelta {
            years: 0,
            months: 0,
            months_f_bits: 0,
            days: 0,
            hours: 0,
            minutes: 0,
            seconds: 0,
            nanoseconds: 0,
            year: None,
            month: None,
            day: None,
            hour: None,
            minute: None,
            second: None,
            nanosecond: None,
            weekday: None,
        }
    }

    /// The builder holding exactly this delta's fields.
    pub open spec fn to_builder(self) -> Builder {
        Builder {
            years: self.years,
            months: self.months,
            months_f_bits: self.months_f_bits,
            days: self.days,
            hours: self.hours,
            minutes: self.minutes,
            seconds: self.seconds,
            nanoseconds: self.nanoseconds,
            year: self.year,
            month: self.month,
            day: self.day,
            weekday: self.weekday,
            hour: self.hour,
            minute: self.minute,
            second: self.second,
            nanosecond: self.nanosecond,
        }
    }

    /// Whether the stored fractional-month bit pattern denotes zero
    /// (either signed IEEE-754 zero).
    pub open spec fn months_f_is_zero(self) -> bool {
        self.months_f_bits == 0 || self.months_f_bits == 0x8000_0000_0000_0000u64
    }

    /// Create a new `RelativeDelta` builder with the absolute year
    /// override set.
    pub fn with_year(year: i64) -> (r: Builder)
        ensures
            r == (Builder { year: Some(year), ..Builder::empty() }),
    {
        Builder { year: Some(year), ..Builder::default() }
    }

    /// Create a new `RelativeDelta` builder with the relative years
    /// offset set.
    pub fn with_years(years: i64) -> (r: Builder)
        ensures
            r == (Builder { years: years, ..Builder::empty() }),
    {
        Builder { years, ..Builder::default() }
    }

    /// Create a new `RelativeDelta` builder with the absolute month
    /// override set.
    pub fn with_month(month: u8) -> (r: Builder)
        ensures
            r == (Builder { month: Some(month), ..Builder::empty() }),
    {
        Builder { month: Some(month), ..Builder::default() }
    }

    /// Create a new `RelativeDelta` builder with the relative months
    /// offset set.
    pub fn with_months(months: i64) -> (r: Builder)
        ensures
            r == (Builder { months: months, ..Builder::empty() }),
    {
        Builder { months, ..Builder::default() }
    }

    /// Create a new `RelativeDelta` builder with the absolute day
    /// override set.
    pub fn with_day(day: u8) -> (r: Builder)
        ensures
            r == (Builder { day: Some(day), ..Builder::empty() }),
    {
        Builder { day: Some(day), ..Builder::default() }
    }

    /// Create a new `RelativeDelta` builder with the relative days offset
    /// set.
    pub fn with_days(days: i64) -> (r: Builder)
        ensures
            r == (Builder { days: days, ..Builder::empty() }),
    {
        Builder { days, ..Builder::default() }
    }

    /// Create a new `RelativeDelta` builder with the absolute hour
    /// override set.
    pub fn with_hour(hour: u8) -> (r: Builder)
        ensures
            r == (Builder { hour: Some(hour), ..Builder::empty() }),
    {
        Builder { hour: Some(hour), ..Builder::default() }
    }

    /// Create a new `RelativeDelta` builder with the relative hours
    /// offset set.
    pub fn with_hours(hours: i64) -> (r: Builder)
        ensures
            r == (Builder { hours: hours, ..Builder::empty() }),
    {
        Builder { hours, ..Builder::default() }
    }

    /// Create a new `RelativeDelta` builder with the absolute minute
    /// override set.
    pub fn with_minute(minute: u8) -> (r: Builder)
        ensures
            r == (Builder { minute: Some(minute), ..Builder::empty() }),
    {
        Builder { minute: Some(minute), ..Builder::default() }
    }

    /// Create a new `RelativeDelta` builder with the relative minutes
    /// offset set.
    pub fn with_minutes(minutes: i64) -> (r: Builder)
        ensures
            r == (Builder { minutes: minutes, ..Builder::empty() }),
    {
        Builder { minutes, ..Builder::default() }
    }

    /// Create a new `RelativeDelta` builder with the absolute second
    /// override set.
    pub fn with_second(second: u8) -> (r: Builder)
        ensures
            r == (Builder { second: Some(second), ..Builder::empty() }),
    {
        Builder { second: Some(second), ..Builder::default() }
    }

    /// Create a new `RelativeDelta` builder with the relative seconds
    /// offset set.
    pub fn with_seconds(seconds: i64) -> (r: Builder)
        ensures
            r == (Builder { seconds: seconds, ..Builder::empty() }),
    {
        Builder { seconds, ..Builder::default() }
    }

    /// Create a new `RelativeDelta` builder with the absolute nanosecond
    /// override set.
    pub fn with_nanosecond(nanosecond: u32) -> (r: Builder)
        ensures
            r == (Builder { nanosecond: Some(nanosecond), ..Builder::empty() }),
    {
        Builder { nanosecond: Some(nanosecond), ..Builder::default() }
    }

    /// Create a new `RelativeDelta` builder with the relative nanoseconds
    /// offset set.
    pub fn with_nanoseconds(nanoseconds: i64) -> (r: Builder)
        ensures
            r == (Builder { nanoseconds: nanoseconds, ..Builder::empty() }),
    {
        Builder { nanoseconds, ..Builder::default() }
    }

    /// Create a new `RelativeDelta` builder with all parameters set to
    /// zero or `None`.
    pub fn new_builder() -> (r: Builder)
        ensures
            r == Builder::empty(),
    {
        Builder::default()
    }

    /// Create a `RelativeDelta` builder seeded with all parameters of this
    /// `RelativeDelta`, useful for deriving a modified copy.
    pub fn builder(&self) -> (r: Builder)
        ensures
            r == self.to_builder(),
    {
        Builder {
            years: self.years,
            months: self.months,
            months_f_bits: self.months_f_bits,
            days: self.days,
            hours: self.hours,
            minutes: self.minutes,
            seconds: self.seconds,
            nanoseconds: self.nanoseconds,
            year: self.year,
            month: self.month,
            day: self.day,
            weekday: self.weekday,
            hour: self.hour,
            minute: self.minute,
            second: self.second,
            nanosecond: self.nanosecond,
        }
    }

    /// Convenience construction of a `RelativeDelta` builder with only
    /// date parameters: absolute year, relative years, absolute month,
    /// relative months, absolute day and relative days.
    pub fn yysmmsdds(
        year: Option<i64>,
        years: i64,
        month: Option<u8>,
        months: i64,
        day: Option<u8>,
        days: i64,
    ) -> (r: Builder)
        ensures
            r == (Builder {
                year: year,
                years: years,
                month: month,
                months: months,
                day: day,
                days: days,
                ..Builder::empty()
            }),
    {
        Builder { year, years, month, months, day, days, ..Builder::default() }
    }

    /// Convenience construction of a `RelativeDelta` builder with only
    /// time parameters: absolute hour, relative hours, absolute minute,
    /// relative minutes, absolute second and relative seconds.
    pub fn hhsmmssss(
        hour: Option<u8>,
        hours: i64,
        minute: Option<u8>,
        minutes: i64,
        second: Option<u8>,
        seconds: i64,
    ) -> (r: Builder)
        ensures
            r == (Builder {
                hour: hour,
                hours: hours,
                minute: minute,
                minutes: minutes,
                second: second,
                seconds: seconds,
                ..Builder::empty()
            }),
    {
        Builder { hour, hours, minute, minutes, second, seconds, ..Builder::default() }
    }

    /// Convenience construction of a `RelativeDelta` builder with a
    /// weekday constraint: the `nth` occurrence of `weekday` at-or-after
    /// (positive `nth`) or at-or-before (negative `nth`) the computed
    /// date.
    pub fn with_weekday(weekday: Weekday, nth: i64) -> (r: Builder)
        ensures
            r == (Builder { weekday: Some((weekday, nth)), ..Builder::empty() }),
    {
        Builder { weekday: Some((weekday, nth)), ..Builder::default() }
    }

    /// Getter for the absolute year override.
    pub fn year(&self) -> (r: Option<i64>)
        ensures
            r == self.year,
    {
        self.year
    }

    /// Getter for the relative years offset.
    pub fn years(&self) -> (r: i64)
        ensures
            r == self.years,
    {
        self.years
    }

    /// Getter for the absolute month override.
    pub fn month(&self) -> (r: Option<u8>)
        ensures
            r == self.month,
    {
        self.month
    }

    /// Getter for the relative months offset.
    pub fn months(&self) -> (r: i64)
        ensures
            r == self.months,
    {
        self.months
    }

    /// Getter for the IEEE-754 bit pattern of the fractional-month
    /// remainder.
    pub fn months_f_bits(&self) -> (r: u64)
        ensures
            r == self.months_f_bits,
    {
        self.months_f_bits
    }

    /// Getter for the absolute day override.
    pub fn day(&self) -> (r: Option<u8>)
        ensures
            r == self.day,
    {
        self.day
    }

    /// Getter for the relative days offset.
    pub fn days(&self) -> (r: i64)
        ensures
            r == self.days,
    {
        self.days
    }

    /// Getter for the absolute hour override.
    pub fn hour(&self) -> (r: Option<u8>)
        ensures
            r == self.hour,
    {
        self.hour
    }

    /// Getter for the relative hours offset.
    pub fn hours(&self) -> (r: i64)
        ensures
            r == self.hours,
    {
        self.hours
    }

    /// Getter for the absolute minute override.
    pub fn minute(&self) -> (r: Option<u8>)
        ensures
            r == self.minute,
    {
        self.minute
    }

    /// Getter for the relative minutes offset.
    pub fn minutes(&self) -> (r: i64)
        ensures
            r == self.minutes,
    {
        self.minutes
    }

    /// Getter for the absolute second override.
    pub fn second(&self) -> (r: Option<u8>)
        ensures
            r == self.second,
    {
        self.second
    }

    /// Getter for the relative seconds offset.
    pub fn seconds(&self) -> (r: i64)
        ensures
            r == self.seconds,
    {
        self.seconds
    }

    /// Getter for the absolute nanosecond override.
    pub fn nanosecond(&self) -> (r: Option<u32>)
        ensures
            r == self.nanosecond,
    {
        self.nanosecond
    }

    /// Getter for the relative nanoseconds offset.
    pub fn nanoseconds(&self) -> (r: i64)
        ensures
            r == self.nanoseconds,
    {
        self.nanoseconds
    }

    /// Getter for the weekday constraint.
    pub fn weekday(&self) -> (r: Option<(Weekday, i64)>)
        ensures
            r == self.weekday,
    {
        self.weekday
    }

    /// Total relative months represented by the years and months offsets
    /// together, as `years * 12 + months`.
    pub fn total_months(&self) -> (r: i64)
        requires
            i64::MIN <= self.years * 12 + self.months <= i64::MAX,
        ensures
            r == self.years * 12 + self.months,
    {
        let total: i128 = (self.years as i128) * 12 + (self.months as i128);
        total as i64
    }

    /// Whether this delta has no effect: every relative field is zero,
    /// every override is unset, the fractional month remainder is zero and
    /// there is no weekday constraint.
    pub fn is_empty(&self) -> (r: bool)
        ensures
            r == (self.year is None && self.month is None && self.day is None
                && self.hour is None && self.minute is None && self.second is None
                && self.nanosecond is None && self.years == 0 && self.months == 0
                && self.days == 0 && self.hours == 0 && self.minutes == 0
                && self.seconds == 0 && self.nanoseconds == 0
                && self.months_f_is_zero() && self.weekday is None),
    {
        self.year.is_none() && self.month.is_none() && self.day.is_none()
            && self.hour.is_none() && self.minute.is_none() && self.second.is_none()
            && self.nanosecond.is_none() && self.years == 0 && self.months == 0
            && self.days == 0 && self.hours == 0 && self.minutes == 0
            && self.seconds == 0 && self.nanoseconds == 0
            && (self.months_f_bits == 0 || self.months_f_bits == 0x8000_0000_0000_0000u64)
            && self.weekday.is_none()
    }

    /// The negation of a delta: relative fields negate; the absolute
    /// overrides, the weekday constraint and the fractional month
    /// remainder pass through unchanged.
    pub open spec fn negated_spec(self) -> RelativeDelta {
        RelativeDelta {
            years: (-self.years) as i64,
            months: (-self.months) as i64,
            days: (-self.days) as i64,
            hours: (-self.hours) as i64,
            minutes: (-self.minutes) as i64,
            seconds: (-self.seconds) as i64,
            nanoseconds: (-self.nanoseconds) as i64,
            ..self
        }
    }

    /// Whether each relative field can be negated without overflow.
    pub open spec fn negation_fits(self) -> bool {
        &&& self.years > i64::MIN
        &&& self.months > i64::MIN
        &&& self.days > i64::MIN
        &&& self.hours > i64::MIN
        &&& self.minutes > i64::MIN
        &&& self.seconds > i64::MIN
        &&& self.nanoseconds > i64::MIN
    }

    /// Negate the delta.  Only the relative offsets are negated: an
    /// absolute override such as "set year to 2020" stays as it is, and so
    /// do the weekday constraint and the fractional month remainder.
    pub fn negated(&self) -> (r: RelativeDelta)
        requires
            self.negation_fits(),
        ensures
            r == self.negated_spec(),
    {
        RelativeDelta {
            years: -self.years,
            months: -self.months,
            days: -self.days,
            hours: -self.hours,
            minutes: -self.minutes,
            seconds: -self.seconds,
            nanoseconds: -self.nanoseconds,
            ..*self
        }
    }

    /// The builder holding the pairwise sums of two deltas' relative
    /// fields, with every override, the weekday constraint and the
    /// fractional month remainder dropped.
    pub open spec fn sum_builder(self, rhs: RelativeDelta) -> Builder {
        Builder {
            years: (self.years + rhs.years) as i64,
            months: (self.months + rhs.months) as i64,
            days: (self.days + rhs.days) as i64,
            hours: (self.hours + rhs.hours) as i64,
            minutes: (self.minutes + rhs.minutes) as i64,
            seconds: (self.seconds + rhs.seconds) as i64,
            nanoseconds: (self.nanoseconds + rhs.nanoseconds) as i64,
            ..Builder::empty()
        }
    }

    /// Whether two deltas can be added without overflow: each pairwise sum
    /// of relative fields fits the field type, and so does each carry of
    /// the renormalization that follows.
    pub open spec fn sums_fit(self, rhs: RelativeDelta) -> bool {
        &&& i64::MIN <= self.years + rhs.years <= i64::MAX
        &&& i64::MIN <= self.months + rhs.months <= i64::MAX
        &&& i64::MIN <= self.days + rhs.days <= i64::MAX
        &&& i64::MIN <= self.hours + rhs.hours <= i64::MAX
        &&& i64::MIN <= self.minutes + rhs.minutes <= i64::MAX
        &&& i64::MIN <= self.seconds + rhs.seconds <= i64::MAX
        &&& i64::MIN <= self.nanoseconds + rhs.nanoseconds <= i64::MAX
        &&& self.sum_builder(rhs).carries_fit()
    }

    /// Add two deltas.  Each relative field is summed pairwise and the
    /// result is renormalized; the absolute overrides and weekday
    /// constraints of **both** operands are dropped, so the sum is a pure
    /// relative offset.
    pub fn add(&self, rhs: &RelativeDelta) -> (r: RelativeDelta)
        requires
            self.sums_fit(*rhs),
        ensures
            r == self.sum_builder(*rhs).built(),
            r.is_normalized(),
            r.year is None,
            r.month is None,
            r.day is None,
            r.hour is None,
            r.minute is None,
            r.second is None,
            r.nanosecond is None,
            r.weekday is None,
            r.months_f_bits == 0,
    {
        let b = Builder {
            years: self.years + rhs.years,
            months: self.months + rhs.months,
            days: self.days + rhs.days,
            hours: self.hours + rhs.hours,
            minutes: self.minutes + rhs.minutes,
            seconds: self.seconds + rhs.seconds,
            nanoseconds: self.nanoseconds + rhs.nanoseconds,
            ..Builder::default()
        };
        b.build()
    }

    /// Subtract `rhs` from this delta, defined as adding the negation of
    /// `rhs`.  As with addition, the absolute overrides and weekday
    /// constraints of both operands are dropped.
    pub fn sub(&self, rhs: &RelativeDelta) -> (r: RelativeDelta)
        requires
            rhs.negation_fits(),
            self.sums_fit(rhs.negated_spec()),
        ensures
            r == self.sum_builder(rhs.negated_spec()).built(),
            r.is_normalized(),
            r.year is None,
            r.month is None,
            r.day is None,
            r.hour is None,
            r.minute is None,
            r.second is None,
            r.nanosecond is None,
            r.weekday is None,
            r.months_f_bits == 0,
    {
        let negated_rhs = rhs.negated();
        self.add(&negated_rhs)
    }
}

impl core::default::Default for RelativeDelta {
    /// A delta with every relative field zero and every override unset.
    fn default() -> (r: Self)
        ensures
            r == RelativeDelta::zero(),
    {
        RelativeDelta {
            years: 0,
            months: 0,
            months_f_bits: 0,
            days: 0,
            hours: 0,
            minutes: 0,
            seconds: 0,
            nanoseconds: 0,
            year: None,
            month: None,
            day: None,
            hour: None,
            minute: None,
            second: None,
            nanosecond: None,
            weekday: None,
        }
    }
}

/// Normalization is idempotent: re-opening the builder of an
/// already-normalized delta and building it again yields the identical
/// value.
pub proof fn lemma_rebuild_identity(d: RelativeDelta)
    requires
        d.is_normalized(),
    ensures
        d.to_builder().carries_fit(),
        d.to_builder().absolutes_in_range(),
        d.to_builder().built() == d,
{
    let b = d.to_builder();
    lemma_tdiv_tmod_small(b.nanoseconds as int, NANOS_PER_SECOND as int);
    assert(b.carried_seconds() == d.seconds);
    lemma_tdiv_tmod_small(b.carried_seconds(), SECONDS_PER_MINUTE as int);
    assert(b.carried_minutes() == d.minutes);
    lemma_tdiv_tmod_small(b.carried_minutes(), MINUTES_PER_HOUR as int);
    assert(b.carried_hours() == d.hours);
    lemma_tdiv_tmod_small(b.carried_hours(), HOURS_PER_DAY as int);
    assert(b.carried_days() == d.days);
    lemma_tdiv_tmod_small(b.months as int, MONTHS_PER_YEAR as int);
    assert(b.carried_years() == d.years);
}

} // verus!
