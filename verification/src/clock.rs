//! The clock face: today's date and the time of day.

use vstd::prelude::*;
use crate::dashboard::{Dashboard, Date, Time};
use crate::instant::ObservationInstant;

verus! {

/// Puts the date and the time of day of `now` on display and leaves the
/// rest as it is.
pub fn set_time(api: &mut Dashboard, now: &ObservationInstant)
    ensures
        final(api).current_date.year == now@.year,
        final(api).current_date.month == now@.month,
        final(api).current_date.day == now@.day,
        final(api).current_time.hour == now@.hour,
        final(api).current_time.minute == now@.minute,
        final(api).current_time.second == now@.second,
        final(api).is_yellow_bin == old(api).is_yellow_bin,
        final(api).days_to_bin == old(api).days_to_bin,
{
    let mut date = Date::default();
    date.year = now.year();
    date.month = now.month() as i32;
    date.day = now.day() as i32;
    api.current_date = date;

    let mut time = Time::default();
    time.hour = now.hour() as i32;
    time.minute = now.minute() as i32;
    time.second = now.second() as i32;
    api.current_time = time;
}

} // verus!
