//! Weekdays, Monday through Sunday, with their one-based ordinals.

use vstd::prelude::*;

verus! {

/// A day of the week. Ordinals follow the common civil convention:
/// Monday is 1 and Sunday is 7.
#[derive(Clone, Copy, PartialEq, Eq, Structural, Debug)]
pub enum Weekday {
    Monday,
    Tuesday,
    Wednesday,
    Thursday,
    Friday,
    Saturday,
    Sunday,
}

impl Weekday {
    /// The one-based ordinal of this weekday: Monday is 1, ..., Sunday is 7.
    pub open spec fn ordinal_spec(self) -> u32 {
        match self {
            Weekday::Monday => 1,
            Weekday::Tuesday => 2,
            Weekday::Wednesday => 3,
            Weekday::Thursday => 4,
            Weekday::Friday => 5,
            Weekday::Saturday => 6,
            Weekday::Sunday => 7,
        }
    }

    /// Returns the one-based ordinal of this weekday.
    pub fn ordinal(self) -> (r: u32)
        ensures
            r == self.ordinal_spec(),
    {
        match self {
            Weekday::Monday => 1,
            Weekday::Tuesday => 2,
            Weekday::Wednesday => 3,
            Weekday::Thursday => 4,
            Weekday::Friday => 5,
            Weekday::Saturday => 6,
            Weekday::Sunday => 7,
        }
    }

    /// The next weekday in cyclic order: Monday follows Sunday.
    pub fn cycle_next(self) -> (r: Weekday)
        ensures
            r.ordinal_spec() == if self.ordinal_spec() == 7 {
                1u32
            } else {
                (self.ordinal_spec() + 1) as u32
            },
    {
        match self {
            Weekday::Monday => Weekday::Tuesday,
            Weekday::Tuesday => Weekday::Wednesday,
            Weekday::Wednesday => Weekday::Thursday,
            Weekday::Thursday => Weekday::Friday,
            Weekday::Friday => Weekday::Saturday,
            Weekday::Saturday => Weekday::Sunday,
            Weekday::Sunday => Weekday::Monday,
        }
    }

    /// The week starting at Monday: seven weekdays in cyclic order, so the
    /// day at position `k` has ordinal `k + 1`.
    pub fn week_from_monday() -> (r: Vec<Weekday>)
        ensures
            r@.len() == 7,
            forall|k: int| 0 <= k < 7 ==> #[trigger] r@[k].ordinal_spec() == k + 1,
    {
        let mut days: Vec<Weekday> = Vec::new();
        let mut day = Weekday::Monday;
        let mut i: usize = 0;
        while i < 7
            invariant
                i <= 7,
                days@.len() == i,
                forall|k: int| 0 <= k < i ==> #[trigger] days@[k].ordinal_spec() == k + 1,
                day.ordinal_spec() == if i < 7 { (i + 1) as u32 } else { 1u32 },
            decreases 7 - i,
        {
            days.push(day);
            day = day.cycle_next();
            i = i + 1;
        }
        days
    }
}

} // verus!
