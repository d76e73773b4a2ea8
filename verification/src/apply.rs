use vstd::prelude::*;

use vstd::arithmetic::div_mod::lemma_div_is_ordered;
use vstd::arithmetic::div_mod::lemma_div_multiples_vanish;
use vstd::arithmetic::div_mod::lemma_mod_bound;
use vstd::arithmetic::div_mod::lemma_multiply_divide_lt;

use crate::civil::civil_of_julian_day;
use crate::civil::days_in_month_spec;
use crate::civil::julian_day_from_ymd;
use crate::civil::julian_day_of;
use crate::civil::num_days_in_month;
use crate::civil::ymd_from_julian_day;
use crate::civil::CivilDateTime;
use crate::civil::MAX_JULIAN_DAY;
use crate::civil::MAX_YEAR;
use crate::civil::MIN_JULIAN_DAY;
use crate::civil::MIN_YEAR;
use crate::from_error::FromError;
use crate::relativedelta::RelativeDelta;
use crate::relativedelta::NANOS_PER_SECOND;
use crate::weekday::Weekday;

verus! {

/// Nanoseconds in one day.
pub const NANOS_PER_DAY: i64 = 86_400_000_000_000;

/// Nanoseconds in one hour.
pub const NANOS_PER_HOUR: i64 = 3_600_000_000_000;

/// Nanoseconds in one minute.
pub const NANOS_PER_MINUTE: i64 = 60_000_000_000;

/// For a positive divisor, a dividend within known multiples of the
/// divisor has its (floor) quotient within those multiples.
proof fn lemma_div_bounds(x: int, d: int, lo: int, hi: int)
    requires
        0 < d,
        lo * d <= x,
        x < hi * d,
    ensures
        lo <= x / d < hi,
{
    lemma_div_is_ordered(lo * d, x, d);
    assert(d * lo == lo * d) by (nonlinear_arith);
    lemma_div_multiples_vanish(lo, d);
    assert(d * hi == hi * d) by (nonlinear_arith);
    lemma_multiply_divide_lt(x, d, hi);
}

/// The date-time whose date bears Julian day number `j` and whose time of
/// day is `tod` nanoseconds after midnight.
pub open spec fn assemble_spec(j: int, tod: int) -> CivilDateTime {
    CivilDateTime {
        year: civil_of_julian_day(j).0 as i32,
        month: civil_of_julian_day(j).1 as u8,
        day: civil_of_julian_day(j).2 as u8,
        hour: (tod / NANOS_PER_HOUR as int) as u8,
        minute: ((tod % NANOS_PER_HOUR as int) / NANOS_PER_MINUTE as int) as u8,
        second: ((tod % NANOS_PER_MINUTE as int) / NANOS_PER_SECOND as int) as u8,
        nanosecond: (tod % NANOS_PER_SECOND as int) as u32,
    }
}

/// The number of days to jump so that a date whose weekday has
/// Monday-based position `ret_wd` satisfies the constraint `(w, nth)`:
/// forward to the nth occurrence of `w` at-or-after the date for positive
/// `nth` (a full week when the date already falls on `w`), backward to the
/// nth occurrence at-or-before it otherwise.
pub open spec fn weekday_jump(ret_wd: int, w: Weekday, nth: int) -> int {
    if nth > 0 {
        (nth - 1) * 7 + (7 - ret_wd + w.ord())
    } else {
        -(((-nth) - 1) * 7 + (ret_wd - w.ord()) % 7)
    }
}

impl RelativeDelta {
    /// The resolved year before month carry: the absolute year override
    /// (or the base date-time's year) plus the relative years offset.
    pub open spec fn resolved_year0(self, t: CivilDateTime) -> int {
        (match self.year {
            Some(y) => y as int,
            None => t.year as int,
        }) + self.years
    }

    /// The resolved month value before carry: the absolute month override
    /// (or the base date-time's month) plus the relative months offset.
    pub open spec fn month_total(self, t: CivilDateTime) -> int {
        (match self.month {
            Some(m) => m as int,
            None => t.month as int,
        }) + self.months
    }

    /// The years carried out of the month arithmetic, so that the
    /// remaining month lies in `1..=12`.
    pub open spec fn month_carry(self, t: CivilDateTime) -> int {
        (self.month_total(t) - 1) / 12
    }

    /// The resolved month of the target date, in `1..=12`.
    pub open spec fn resolved_month(self, t: CivilDateTime) -> int {
        1 + (self.month_total(t) - 1) % 12
    }

    /// The resolved year of the target date, after the month carry.
    pub open spec fn resolved_year(self, t: CivilDateTime) -> int {
        self.resolved_year0(t) + self.month_carry(t)
    }

    /// The resolved day of the target date: the absolute day override (or
    /// the base date-time's day), clamped to the length of the resolved
    /// target month.
    pub open spec fn resolved_day(self, t: CivilDateTime) -> int {
        let limit = days_in_month_spec(self.resolved_year(t), self.resolved_month(t));
        let day0 = (match self.day {
            Some(d) => d as int,
            None => t.day as int,
        });
        if limit < day0 {
            limit
        } else {
            day0
        }
    }

    /// The resolved time of day before the relative offsets, in
    /// nanoseconds after midnight: each field is the absolute override or
    /// the base date-time's value.
    pub open spec fn base_tod_nanos(self, t: CivilDateTime) -> int {
        ((match self.hour {
            Some(h) => h as int,
            None => t.hour as int,
        }) * 3600 + (match self.minute {
            Some(m) => m as int,
            None => t.minute as int,
        }) * 60 + (match self.second {
            Some(s) => s as int,
            None => t.second as int,
        })) * (NANOS_PER_SECOND as int) + (match self.nanosecond {
            Some(n) => n as int,
            None => t.nanosecond as int,
        })
    }

    /// The relative time-of-day offset, in nanoseconds.
    pub open spec fn delta_tod_nanos(self) -> int {
        (self.hours * 3600 + self.minutes * 60 + self.seconds) * (NANOS_PER_SECOND as int)
            + self.nanoseconds
    }

    /// The resolved time of day plus the relative offset, in nanoseconds;
    /// may fall outside one day.
    pub open spec fn total_tod_nanos(self, t: CivilDateTime) -> int {
        self.base_tod_nanos(t) + self.delta_tod_nanos()
    }

    /// The whole days that the time-of-day arithmetic overflows into
    /// (1, 0 or -1 for a normalized delta).
    pub open spec fn tod_day_carry(self, t: CivilDateTime) -> int {
        self.total_tod_nanos(t) / (NANOS_PER_DAY as int)
    }

    /// The final time of day of the target, in nanoseconds after
    /// midnight.
    pub open spec fn final_tod(self, t: CivilDateTime) -> int {
        self.total_tod_nanos(t) % (NANOS_PER_DAY as int)
    }

    /// The Julian day number of the candidate date resolved from the
    /// overrides and the month arithmetic, before the day offset.
    pub open spec fn candidate_julian(self, t: CivilDateTime) -> int {
        julian_day_of(self.resolved_year(t), self.resolved_month(t), self.resolved_day(t))
    }

    /// The Julian day number of the target date: the candidate, shifted
    /// by the relative days offset and the time-of-day carry.
    pub open spec fn shifted_julian(self, t: CivilDateTime) -> int {
        self.candidate_julian(t) + self.days + self.tod_day_carry(t)
    }

    /// The result of applying this delta to the date-time `t`:
    ///
    /// 1. each calendar field is resolved as the absolute override or the
    ///    base value, offset by the relative amount, with month overflow
    ///    carried into the year and the day clamped to the end of the
    ///    resolved month;
    /// 2. the relative days and time-of-day offsets shift the candidate;
    /// 3. an optional weekday constraint jumps to the nth matching
    ///    weekday, where a date's weekday is derived from its Julian day
    ///    number (Julian day 0 fell on a Monday).
    ///
    /// The result is `None` exactly when an intermediate or final date
    /// falls outside the representable calendar range.
    pub open spec fn applied(self, t: CivilDateTime) -> Option<CivilDateTime> {
        if !(MIN_YEAR <= self.resolved_year(t) <= MAX_YEAR) {
            None
        } else {
            let j2 = self.shifted_julian(t);
            if !(MIN_JULIAN_DAY <= j2 <= MAX_JULIAN_DAY) {
                None
            } else {
                match self.weekday {
                    None => Some(assemble_spec(j2, self.final_tod(t))),
                    Some((w, nth)) => {
                        let j3 = j2 + weekday_jump(j2 % 7, w, nth as int);
                        if !(MIN_JULIAN_DAY <= j3 <= MAX_JULIAN_DAY) {
                            None
                        } else {
                            Some(assemble_spec(j3, self.final_tod(t)))
                        }
                    },
                }
            }
        }
    }

    /// Apply this delta to the date-time `t`, as described by
    /// [`RelativeDelta::applied`]: absolute overrides replace fields,
    /// relative offsets shift them with calendar-correct month overflow
    /// and end-of-month clamping, and the weekday constraint picks the
    /// nth matching weekday.  Returns `None` exactly when a resolved date
    /// falls outside the representable calendar range.
    #[verifier::rlimit(100)]
    pub fn add_to(&self, t: &CivilDateTime) -> (r: Option<CivilDateTime>)
        requires
            self.is_normalized(),
            t.wf(),
        ensures
            r == self.applied(*t),
            r matches Some(p) ==> p.wf(),
    {
        let base_year: i64 = match self.year {
            Some(y) => y,
            None => t.year as i64,
        };
        let y0: i128 = base_year as i128 + self.years as i128;
        let base_month: i64 = match self.month {
            Some(m) => m as i64,
            None => t.month as i64,
        };
        let mt: i64 = base_month + self.months;
        proof {
            lemma_div_bounds(mt - 1, 12, -1, 2);
            lemma_mod_bound(mt - 1, 12);
        }
        let mc: i64 = (mt - 1).checked_div_euclid(12).unwrap_or(0);
        let rm_i: i64 = 1 + (mt - 1).checked_rem_euclid(12).unwrap_or(0);
        let ry_wide: i128 = y0 + (mc as i128);
        if ry_wide < (MIN_YEAR as i128) || ry_wide > (MAX_YEAR as i128) {
            return None;
        }
        let ry: i32 = ry_wide as i32;
        let rm: u8 = rm_i as u8;
        let ndim: u8 = num_days_in_month(ry as i64, rm);
        let base_day: u8 = match self.day {
            Some(d) => d,
            None => t.day,
        };
        let rd: u8 = if ndim < base_day {
            ndim
        } else {
            base_day
        };
        let base_hour: i64 = match self.hour {
            Some(h) => h as i64,
            None => t.hour as i64,
        };
        let base_minute: i64 = match self.minute {
            Some(m) => m as i64,
            None => t.minute as i64,
        };
        let base_second: i64 = match self.second {
            Some(s) => s as i64,
            None => t.second as i64,
        };
        let base_nano: i64 = match self.nanosecond {
            Some(n) => n as i64,
            None => t.nanosecond as i64,
        };
        let base_tod: i64 = (base_hour * 3600 + base_minute * 60 + base_second) * NANOS_PER_SECOND
            + base_nano;
        let delta_tod: i64 = (self.hours * 3600 + self.minutes * 60 + self.seconds)
            * NANOS_PER_SECOND + self.nanoseconds;
        let total: i64 = base_tod + delta_tod;
        proof {
            lemma_div_bounds(total as int, NANOS_PER_DAY as int, -1, 2);
            lemma_mod_bound(total as int, NANOS_PER_DAY as int);
        }
        let day_carry: i64 = total.checked_div_euclid(NANOS_PER_DAY).unwrap_or(0);
        let tod: i64 = total.checked_rem_euclid(NANOS_PER_DAY).unwrap_or(0);
        let j: i32 = match julian_day_from_ymd(ry, rm, rd) {
            Some(j) => j,
            None => {
                proof {
                    assert(false);
                }
                return None;
            },
        };
        let j2_wide: i128 = j as i128 + self.days as i128 + day_carry as i128;
        if j2_wide < (MIN_JULIAN_DAY as i128) || j2_wide > (MAX_JULIAN_DAY as i128) {
            return None;
        }
        let j2: i32 = j2_wide as i32;
        match self.weekday {
            None => Some(datetime_from_julian(j2, tod)),
            Some((w, nth)) => {
                proof {
                    lemma_mod_bound(j2 as int, 7);
                }
                let ret_wd: i32 = j2.checked_rem_euclid(7).unwrap_or(0);
                let w_num: u8 = w.num_days_from_monday();
                let jump: i128 = if nth > 0 {
                    (nth as i128 - 1) * 7 + (7 - ret_wd as i128 + w_num as i128)
                } else {
                    proof {
                        lemma_mod_bound(ret_wd - w_num, 7);
                    }
                    let diff: i64 = ret_wd as i64 - w_num as i64;
                    let dm: i64 = diff.checked_rem_euclid(7).unwrap_or(0);
                    -(((-(nth as i128)) - 1) * 7 + dm as i128)
                };
                let j3_wide: i128 = j2 as i128 + jump;
                if j3_wide < (MIN_JULIAN_DAY as i128) || j3_wide > (MAX_JULIAN_DAY as i128) {
                    return None;
                }
                Some(datetime_from_julian(j3_wide as i32, tod))
            },
        }
    }

    /// Subtract this delta from the date-time `t`: defined as applying
    /// the negated delta.  Because only the relative offsets negate, an
    /// absolute override is applied just as in addition.
    pub fn sub_from(&self, t: &CivilDateTime) -> (r: Option<CivilDateTime>)
        requires
            self.is_normalized(),
            self.negation_fits(),
            t.wf(),
        ensures
            r == self.negated_spec().applied(*t),
            r matches Some(p) ==> p.wf(),
    {
        let negated = self.negated();
        negated.add_to(t)
    }

    /// The narrowing conversion of this delta to a concrete date-time:
    /// requires the year, month and day overrides to all be present;
    /// missing time-of-day overrides fall back to zero.
    pub open spec fn to_datetime_spec(self) -> Result<CivilDateTime, FromError> {
        match self.year {
            None => Err(FromError::MissingYear),
            Some(y) => if !(i32::MIN <= y <= i32::MAX) {
                Err(FromError::MissingYear)
            } else {
                match self.month {
                    None => Err(FromError::MissingMonth),
                    Some(m) => match self.day {
                        None => Err(FromError::MissingDay),
                        Some(d) => if d > days_in_month_spec(y as int, m as int) {
                            Err(FromError::InvalidDateComponents)
                        } else {
                            Ok(
                                CivilDateTime {
                                    year: y as i32,
                                    month: m,
                                    day: d,
                                    hour: (match self.hour {
                                        Some(h) => h,
                                        None => 0,
                                    }),
                                    minute: (match self.minute {
                                        Some(mi) => mi,
                                        None => 0,
                                    }),
                                    second: (match self.second {
                                        Some(s) => s,
                                        None => 0,
                                    }),
                                    nanosecond: (match self.nanosecond {
                                        Some(n) => n,
                                        None => 0,
                                    }),
                                },
                            )
                        },
                    },
                }
            },
        }
    }

    /// Narrow this delta to a concrete date-time.  Succeeds exactly when
    /// the year, month and day overrides are all present, the year fits
    /// the date-time's year type and the day exists in that month;
    /// missing time-of-day overrides fall back to zero.
    pub fn try_to_datetime(&self) -> (r: Result<CivilDateTime, FromError>)
        requires
            self.absolutes_in_range(),
        ensures
            r == self.to_datetime_spec(),
            r matches Ok(p) ==> p.wf(),
    {
        let y64: i64 = match self.year {
            Some(y) => y,
            None => {
                return Err(FromError::MissingYear);
            },
        };
        if y64 < i32::MIN as i64 || y64 > i32::MAX as i64 {
            return Err(FromError::MissingYear);
        }
        let year: i32 = y64 as i32;
        let month: u8 = match self.month {
            Some(m) => m,
            None => {
                return Err(FromError::MissingMonth);
            },
        };
        let day: u8 = match self.day {
            Some(d) => d,
            None => {
                return Err(FromError::MissingDay);
            },
        };
        if day > num_days_in_month(year as i64, month) {
            return Err(FromError::InvalidDateComponents);
        }
        Ok(
            CivilDateTime {
                year,
                month,
                day,
                hour: self.hour.unwrap_or(0),
                minute: self.minute.unwrap_or(0),
                second: self.second.unwrap_or(0),
                nanosecond: self.nanosecond.unwrap_or(0),
            },
        )
    }
}

/// The date-time whose date bears Julian day number `j` and whose time of
/// day is `tod` nanoseconds after midnight.
fn datetime_from_julian(j: i32, tod: i64) -> (r: CivilDateTime)
    requires
        MIN_JULIAN_DAY <= j <= MAX_JULIAN_DAY,
        0 <= tod < NANOS_PER_DAY,
    ensures
        r == assemble_spec(j as int, tod as int),
        r.wf(),
{
    let ymd: (i32, u8, u8) = match ymd_from_julian_day(j) {
        Some(v) => v,
        None => {
            proof {
                assert(false);
            }
            (0, 1, 1)
        },
    };
    proof {
        lemma_div_bounds(tod as int, NANOS_PER_HOUR as int, 0, 24);
        lemma_mod_bound(tod as int, NANOS_PER_HOUR as int);
        lemma_div_bounds(
            (tod as int) % (NANOS_PER_HOUR as int),
            NANOS_PER_MINUTE as int,
            0,
            60,
        );
        lemma_mod_bound(tod as int, NANOS_PER_MINUTE as int);
        lemma_div_bounds(
            (tod as int) % (NANOS_PER_MINUTE as int),
            NANOS_PER_SECOND as int,
            0,
            60,
        );
        lemma_mod_bound(tod as int, NANOS_PER_SECOND as int);
    }
    let hour: i64 = tod.checked_div_euclid(NANOS_PER_HOUR).unwrap_or(0);
    let rem_hour: i64 = tod.checked_rem_euclid(NANOS_PER_HOUR).unwrap_or(0);
    let minute: i64 = rem_hour.checked_div_euclid(NANOS_PER_MINUTE).unwrap_or(0);
    let rem_minute: i64 = tod.checked_rem_euclid(NANOS_PER_MINUTE).unwrap_or(0);
    let second: i64 = rem_minute.checked_div_euclid(NANOS_PER_SECOND).unwrap_or(0);
    let nanos: i64 = tod.checked_rem_euclid(NANOS_PER_SECOND).unwrap_or(0);
    CivilDateTime {
        year: ymd.0,
        month: ymd.1,
        day: ymd.2,
        hour: hour as u8,
        minute: minute as u8,
        second: second as u8,
        nanosecond: nanos as u32,
    }
}

} // verus!
