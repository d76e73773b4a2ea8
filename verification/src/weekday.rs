use vstd::prelude::*;

verus! {

/// The day of week.
///
/// The order of the days of week depends on the context, so this type has no
/// global ordering; only the circular `days_since` distance is defined.
/// Prefer the `*_from_monday` methods to get an unambiguous number.
#[derive(PartialEq, Eq, Copy, Clone, Debug, Hash, Structural)]
pub enum Weekday {
    /// Monday.
    Mon,
    /// Tuesday.
    Tue,
    /// Wednesday.
    Wed,
    /// Thursday.
    Thu,
    /// Friday.
    Fri,
    /// Saturday.
    Sat,
    /// Sunday.
    Sun,
}

impl Weekday {
    /// The position of this day in a Monday-based week: `Mon` is 0, `Sun` is 6.
    pub open spec fn ord(self) -> int {
        match self {
            Weekday::Mon => 0,
            Weekday::Tue => 1,
            Weekday::Wed => 2,
            Weekday::Thu => 3,
            Weekday::Fri => 4,
            Weekday::Sat => 5,
            Weekday::Sun => 6,
        }
    }

    /// The day whose Monday-based position is `n`, for `n` in `0..=6`.
    pub open spec fn from_ord(n: int) -> Weekday {
        if n == 0 {
            Weekday::Mon
        } else if n == 1 {
            Weekday::Tue
        } else if n == 2 {
            Weekday::Wed
        } else if n == 3 {
            Weekday::Thu
        } else if n == 4 {
            Weekday::Fri
        } else if n == 5 {
            Weekday::Sat
        } else {
            Weekday::Sun
        }
    }

    /// The next day in the week, circularly.
    pub fn succ(&self) -> (r: Self)
        ensures
            r.ord() == (self.ord() + 1) % 7,
    {
        match *self {
            Weekday::Mon => Weekday::Tue,
            Weekday::Tue => Weekday::Wed,
            Weekday::Wed => Weekday::Thu,
            Weekday::Thu => Weekday::Fri,
            Weekday::Fri => Weekday::Sat,
            Weekday::Sat => Weekday::Sun,
            Weekday::Sun => Weekday::Mon,
        }
    }

    /// The previous day in the week, circularly.
    pub fn pred(&self) -> (r: Self)
        ensures
            r.ord() == (self.ord() + 6) % 7,
    {
        match *self {
            Weekday::Mon => Weekday::Sun,
            Weekday::Tue => Weekday::Mon,
            Weekday::Wed => Weekday::Tue,
            Weekday::Thu => Weekday::Wed,
            Weekday::Fri => Weekday::Thu,
            Weekday::Sat => Weekday::Fri,
            Weekday::Sun => Weekday::Sat,
        }
    }

    /// Returns a day-of-week number starting from Monday = 0.
    pub fn num_days_from_monday(&self) -> (r: u8)
        ensures
            r == self.ord(),
    {
        match *self {
            Weekday::Mon => 0,
            Weekday::Tue => 1,
            Weekday::Wed => 2,
            Weekday::Thu => 3,
            Weekday::Fri => 4,
            Weekday::Sat => 5,
            Weekday::Sun => 6,
        }
    }

    /// Returns a day-of-week number starting from Monday = 1 (the ISO 8601
    /// weekday number).
    pub fn number_from_monday(&self) -> (r: u8)
        ensures
            r == self.ord() + 1,
    {
        self.num_days_from_monday() + 1
    }

    /// The number of forward steps from `other` to `self`, in `0..=6`.
    pub fn days_since(&self, other: Self) -> (r: u8)
        ensures
            r == (self.ord() - other.ord()) % 7,
    {
        let lhs = self.num_days_from_monday();
        let rhs = other.num_days_from_monday();
        let r = if lhs < rhs {
            7 + lhs - rhs
        } else {
            lhs - rhs
        };
        proof {
            lemma_mod7_of_small_difference(self.ord(), other.ord());
        }
        r
    }

    /// The day at Monday-based position `n`, or `None` when `n` is above 6.
    pub fn from_u64(n: u64) -> (r: Option<Weekday>)
        ensures
            n <= 6 ==> r == Some(Weekday::from_ord(n as int)),
            n > 6 ==> r is None,
    {
        match n {
            0 => Some(Weekday::Mon),
            1 => Some(Weekday::Tue),
            2 => Some(Weekday::Wed),
            3 => Some(Weekday::Thu),
            4 => Some(Weekday::Fri),
            5 => Some(Weekday::Sat),
            6 => Some(Weekday::Sun),
            _ => None,
        }
    }

    /// The day at Monday-based position `n`, or `None` when `n` is outside
    /// `0..=6`.
    pub fn from_i64(n: i64) -> (r: Option<Weekday>)
        ensures
            0 <= n <= 6 ==> r == Some(Weekday::from_ord(n as int)),
            !(0 <= n <= 6) ==> r is None,
    {
        match n {
            0 => Some(Weekday::Mon),
            1 => Some(Weekday::Tue),
            2 => Some(Weekday::Wed),
            3 => Some(Weekday::Thu),
            4 => Some(Weekday::Fri),
            5 => Some(Weekday::Sat),
            6 => Some(Weekday::Sun),
            _ => None,
        }
    }
}

/// For positions `a` and `b` of days in the week, the circular distance
/// `(a - b) % 7` equals the branch-computed difference.
proof fn lemma_mod7_of_small_difference(a: int, b: int)
    requires
        0 <= a <= 6,
        0 <= b <= 6,
    ensures
        a >= b ==> (a - b) % 7 == a - b,
        a < b ==> (a - b) % 7 == 7 + a - b,
{
}

/// Any weekday can be represented as an integer taken modulo 7, which equals
/// `num_days_from_monday` in this implementation.
impl core::convert::From<u8> for Weekday {
    fn from(value: u8) -> (r: Self) {
        match value % 7 {
            0 => Weekday::Mon,
            1 => Weekday::Tue,
            2 => Weekday::Wed,
            3 => Weekday::Thu,
            4 => Weekday::Fri,
            5 => Weekday::Sat,
            _ => Weekday::Sun,
        }
    }
}

impl vstd::std_specs::convert::FromSpecImpl<u8> for Weekday {
    open spec fn obeys_from_spec() -> bool {
        true
    }

    open spec fn from_spec(value: u8) -> Weekday {
        Weekday::from_ord(value as int % 7)
    }
}

} // verus!
