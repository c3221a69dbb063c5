use vstd::prelude::*;

verus! {

/// A calendar day: `month` in 1..=12 and `day` in 1..=31.
#[derive(Debug, Clone, Copy, PartialEq, Eq, Structural)]
pub struct CalendarDate {
    pub year: i32,
    pub month: u32,
    pub day: u32,
}

impl CalendarDate {
    pub open spec fn wf(self) -> bool {
        1 <= self.month <= 12 && 1 <= self.day <= 31
    }

    /// Whether month and day lie in their ranges.
    pub fn is_valid(&self) -> (r: bool)
        ensures
            r == self.wf(),
    {
        1 <= self.month && self.month <= 12 && 1 <= self.day && self.day <= 31
    }

    /// Whether the day of the year of `self` comes before that of `other`.
    pub open spec fn earlier_in_year(self, other: CalendarDate) -> bool {
        self.month < other.month || (self.month == other.month && self.day < other.day)
    }

    /// Full years from `base` to `self`; `None` when `base` is later.
    pub open spec fn spec_years_since(self, base: CalendarDate) -> Option<u32> {
        let years: int = self.year - base.year - (if self.earlier_in_year(base) {
            1int
        } else {
            0int
        });
        if years >= 0 {
            Some(years as u32)
        } else {
            None
        }
    }

    /// Completed years between `base` and `self`, as a birthday counts them.
    pub fn years_since(&self, base: &CalendarDate) -> (r: Option<u32>)
        requires
            self.wf(),
            base.wf(),
        ensures
            r == self.spec_years_since(*base),
    {
        let mut years: i64 = self.year as i64 - base.year as i64;
        if self.month < base.month || (self.month == base.month && self.day < base.day) {
            years = years - 1;
        }
        if years >= 0 {
            Some(years as u32)
        } else {
            None
        }
    }
}

} // verus!
