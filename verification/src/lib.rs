//! Relative date/time arithmetic.
//!
//! A `RelativeDelta` is a composite offset: signed relative amounts of
//! years, months, days, hours, minutes, seconds and nanoseconds, together
//! with optional absolute overrides for each calendar field and an optional
//! "nth weekday" constraint.  Deltas are built through a `Builder`, which
//! validates the absolute fields and normalizes the relative fields by
//! sign-preserving carry propagation.  A normalized delta can be combined
//! with other deltas (negation, addition, subtraction) and applied to a
//! concrete calendar date-time, with calendar-correct month overflow and
//! end-of-month day clamping.

mod apply;
mod civil;
mod from_error;
mod relativedelta;
mod weekday;

pub use civil::num_days_in_month;
pub use civil::CivilDateTime;
pub use civil::MAX_JULIAN_DAY;
pub use civil::MAX_YEAR;
pub use civil::MIN_JULIAN_DAY;
pub use civil::MIN_YEAR;
pub use from_error::FromError;
pub use relativedelta::BuildError;
pub use relativedelta::Builder;
pub use relativedelta::RelativeDelta;
pub use weekday::Weekday;
