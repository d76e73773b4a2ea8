use vstd::prelude::*;

verus! {

/// Why a `RelativeDelta` could not be narrowed to a concrete date-time.
#[derive(Clone, Copy, Debug, PartialEq, Eq, Structural)]
pub enum FromError {
    /// An absolute value for the year was expected, but none was set (or
    /// the set value does not fit the target's year type).
    MissingYear,
    /// An absolute value for the month was expected, but none was set.
    MissingMonth,
    /// An absolute value for the day was expected, but none was set.
    MissingDay,
    /// The time components do not form a valid time of day.
    InvalidTimeComponents,
    /// The date components do not form a valid calendar date.
    InvalidDateComponents,
}

} // verus!
