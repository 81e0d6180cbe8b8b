use vstd::prelude::*;

use crate::date::DateTime;

verus! {

/// One of the four three-month windows of a year.
#[derive(Debug, Clone, Copy, PartialEq, Eq, PartialOrd, Ord, Structural)]
pub enum Quarter {
    Q1,
    Q2,
    Q3,
    Q4,
}

impl Quarter {
    /// First month of the window.
    pub open spec fn first_month(self) -> int {
        match self {
            Quarter::Q1 => 1,
            Quarter::Q2 => 4,
            Quarter::Q3 => 7,
            Quarter::Q4 => 10,
        }
    }

    /// The month lies in this window.
    pub open spec fn holds_month(self, month: int) -> bool {
        self.first_month() <= month <= self.first_month() + 2
    }

    pub fn matches(&self, date: DateTime) -> (r: bool)
        ensures
            r == self.holds_month(date.month as int),
    {
        let m = date.month;
        match self {
            Quarter::Q1 => 1 <= m && m <= 3,
            Quarter::Q2 => 4 <= m && m <= 6,
            Quarter::Q3 => 7 <= m && m <= 9,
            Quarter::Q4 => 10 <= m && m <= 12,
        }
    }
}

/// A predicate on dates: an optional year and an optional quarter, both of
/// which a date must meet.
#[derive(Debug, Clone, Copy, PartialEq, Eq, Structural)]
pub struct DateFilter {
    pub quarter: Option<Quarter>,
    pub year: Option<i32>,
}

impl DateFilter {
    pub open spec fn accepts(self, date: DateTime) -> bool {
        &&& (self.year matches Some(y) ==> date.year == y)
        &&& (self.quarter matches Some(q) ==> q.holds_month(date.month as int))
    }

    pub fn new(quarter: Option<Quarter>, year: Option<i32>) -> (r: Self)
        ensures
            r.quarter == quarter,
            r.year == year,
    {
        DateFilter { quarter, year }
    }

    pub fn matches(&self, date: DateTime) -> (r: bool)
        ensures
            r == self.accepts(date),
    {
        if let Some(y) = self.year {
            if date.year != y {
                return false;
            }
        }
        if let Some(q) = self.quarter {
            if !q.matches(date) {
                return false;
            }
        }
        true
    }
}

/// Each quarter accepts exactly the months of its window, and every date of
/// the calendar falls in exactly one quarter.
pub proof fn lemma_quarters_partition_year(d: DateTime)
    requires
        d.wf(),
    ensures
        Quarter::Q1.holds_month(d.month as int) <==> 1 <= d.month <= 3,
        Quarter::Q2.holds_month(d.month as int) <==> 4 <= d.month <= 6,
        Quarter::Q3.holds_month(d.month as int) <==> 7 <= d.month <= 9,
        Quarter::Q4.holds_month(d.month as int) <==> 10 <= d.month <= 12,
        (exists|q: Quarter| q.holds_month(d.month as int)),
        (forall|q1: Quarter, q2: Quarter|
            q1.holds_month(d.month as int) && q2.holds_month(d.month as int) ==> q1 == q2),
{
    let m = d.month as int;
    if m <= 3 {
        assert(Quarter::Q1.holds_month(m));
    } else if m <= 6 {
        assert(Quarter::Q2.holds_month(m));
    } else if m <= 9 {
        assert(Quarter::Q3.holds_month(m));
    } else {
        assert(Quarter::Q4.holds_month(m));
    }
}

/// A filter with neither a year nor a quarter accepts every date.
pub proof fn lemma_empty_filter_accepts_all(d: DateTime)
    ensures
        (DateFilter { quarter: None, year: None }).accepts(d),
{
}

} // verus!
