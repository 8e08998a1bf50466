//! The observed local date-time that the schedule is computed for.

use vstd::prelude::*;
use crate::calendar::{civil_day_number, day_number_of, is_valid_date, weekday_from_monday, weekday_index};

verus! {

/// Number of seconds in a civil day.
pub const SECONDS_PER_DAY: i64 = 86_400;

/// A civil date and time of day as mathematical integers: the model of an
/// [`ObservationInstant`].
pub struct CivilInstant {
    pub year: int,
    pub month: int,
    pub day: int,
    pub hour: int,
    pub minute: int,
    pub second: int,
}

impl CivilInstant {
    /// The date exists and the time of day lies within one day.
    pub open spec fn is_valid(self) -> bool {
        &&& is_valid_date(self.year, self.month, self.day)
        &&& 0 <= self.hour < 24
        &&& 0 <= self.minute < 60
        &&& 0 <= self.second < 60
    }

    /// Running day number of the date; January 1 of year 1 is day 1.
    pub open spec fn day_number(self) -> int {
        civil_day_number(self.year, self.month, self.day)
    }

    /// Seconds elapsed since local midnight.
    pub open spec fn second_of_day(self) -> int {
        3600 * self.hour + 60 * self.minute + self.second
    }

    /// Seconds elapsed since the midnight that begins day 0.
    pub open spec fn seconds_from_ce(self) -> int {
        SECONDS_PER_DAY * self.day_number() + self.second_of_day()
    }

    /// Weekday of the date, counted from Monday (0) to Sunday (6).
    pub open spec fn weekday_from_monday(self) -> int {
        weekday_from_monday(self.day_number())
    }
}

/// A local date-time read from a clock. Every value is a date that exists,
/// with a time of day below 24:00:00.
#[derive(Clone, Copy, Debug, PartialEq, Eq)]
pub struct ObservationInstant {
    year: i32,
    month: u32,
    day: u32,
    hour: u32,
    minute: u32,
    second: u32,
    day_number: i32,
}

impl View for ObservationInstant {
    type V = CivilInstant;

    closed spec fn view(&self) -> CivilInstant {
        CivilInstant {
            year: self.year as int,
            month: self.month as int,
            day: self.day as int,
            hour: self.hour as int,
            minute: self.minute as int,
            second: self.second as int,
        }
    }
}

impl ObservationInstant {
    #[verifier::type_invariant]
    closed spec fn well_formed(&self) -> bool {
        &&& self@.is_valid()
        &&& self.day_number == self@.day_number()
    }

    /// The instant `year`-`month`-`day` `hour`:`minute`:`second`, or `None`
    /// if there is no such date or time of day.
    pub fn new(year: i32, month: u32, day: u32, hour: u32, minute: u32, second: u32) -> (r: Option<
        ObservationInstant,
    >)
        ensures
            r is Some <==> (CivilInstant {
                year: year as int,
                month: month as int,
                day: day as int,
                hour: hour as int,
                minute: minute as int,
                second: second as int,
            }).is_valid(),
            r matches Some(instant) ==> instant@ == (CivilInstant {
                year: year as int,
                month: month as int,
                day: day as int,
                hour: hour as int,
                minute: minute as int,
                second: second as int,
            }),
    {
        if hour >= 24 || minute >= 60 || second >= 60 {
            return None;
        }
        match day_number_of(year, month, day) {
            Some(day_number) => Some(
                ObservationInstant { year, month, day, hour, minute, second, day_number },
            ),
            None => None,
        }
    }

    /// Calendar year.
    pub fn year(&self) -> (r: i32)
        ensures
            r == self@.year,
    {
        self.year
    }

    /// Month of the year, 1 to 12.
    pub fn month(&self) -> (r: u32)
        ensures
            r == self@.month,
            1 <= r <= 12,
    {
        proof {
            use_type_invariant(self);
        }
        self.month
    }

    /// Day of the month, 1 to 31.
    pub fn day(&self) -> (r: u32)
        ensures
            r == self@.day,
            1 <= r <= 31,
    {
        proof {
            use_type_invariant(self);
        }
        self.day
    }

    /// Hour of the day, 0 to 23.
    pub fn hour(&self) -> (r: u32)
        ensures
            r == self@.hour,
            r < 24,
    {
        proof {
            use_type_invariant(self);
        }
        self.hour
    }

    /// Minute of the hour, 0 to 59.
    pub fn minute(&self) -> (r: u32)
        ensures
            r == self@.minute,
            r < 60,
    {
        proof {
            use_type_invariant(self);
        }
        self.minute
    }

    /// Second of the minute, 0 to 59.
    pub fn second(&self) -> (r: u32)
        ensures
            r == self@.second,
            r < 60,
    {
        proof {
            use_type_invariant(self);
        }
        self.second
    }

    /// Running day number of the date; January 1 of year 1 is day 1.
    pub fn day_number(&self) -> (r: i32)
        ensures
            r == self@.day_number(),
            self@.is_valid(),
    {
        proof {
            use_type_invariant(self);
        }
        self.day_number
    }

    /// Weekday of the date, counted from Monday (0) to Sunday (6).
    pub fn weekday_index_from_monday(&self) -> (r: u32)
        ensures
            r == self@.weekday_from_monday(),
            r < 7,
    {
        weekday_index(self.day_number())
    }
}

} // verus!
