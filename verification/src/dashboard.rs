//! What the dashboard shows: the values that the display is bound to.

use vstd::prelude::*;

verus! {

/// A calendar date as the display takes it.
#[derive(Clone, Copy, Debug, PartialEq, Eq, Structural)]
pub struct Date {
    pub year: i32,
    pub month: i32,
    pub day: i32,
}

/// A time of day as the display takes it.
#[derive(Clone, Copy, Debug, PartialEq, Eq, Structural)]
pub struct Time {
    pub hour: i32,
    pub minute: i32,
    pub second: i32,
}

/// The values on display.
#[derive(Clone, Copy, Debug, PartialEq, Eq, Structural)]
pub struct Dashboard {
    /// Whether the yellow bin goes out with the next collection.
    pub is_yellow_bin: bool,
    /// Days until the next collection.
    pub days_to_bin: i32,
    /// Today's date.
    pub current_date: Date,
    /// The time of day.
    pub current_time: Time,
}

impl Default for Date {
    fn default() -> (r: Date)
        ensures
            r == (Date { year: 0, month: 0, day: 0 }),
    {
        Date { year: 0, month: 0, day: 0 }
    }
}

impl Default for Time {
    fn default() -> (r: Time)
        ensures
            r == (Time { hour: 0, minute: 0, second: 0 }),
    {
        Time { hour: 0, minute: 0, second: 0 }
    }
}

impl Default for Dashboard {
    fn default() -> (r: Dashboard)
        ensures
            r == (Dashboard {
                is_yellow_bin: false,
                days_to_bin: 0,
                current_date: Date { year: 0, month: 0, day: 0 },
                current_time: Time { hour: 0, minute: 0, second: 0 },
            }),
    {
        Dashboard {
            is_yellow_bin: false,
            days_to_bin: 0,
            current_date: Date { year: 0, month: 0, day: 0 },
            current_time: Time { hour: 0, minute: 0, second: 0 },
        }
    }
}

} // verus!
