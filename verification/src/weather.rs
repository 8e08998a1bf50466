//! The forecast: the icons that stand for its weather codes, and the dates
//! and times of day that its texts name.
//!
//! The forecast names a day as `2024-05-13` and a minute as
//! `2024-05-13T05:42`, in local time, and gives the offset of that local
//! time from UTC in seconds. Such a text is read as a full RFC 3339 stamp:
//! the missing parts are filled in with zeros and the offset is added as a
//! label of whole hours. Where the stamp that results cannot be read, the
//! date or the time of day is left at zero.
//!
//! The label is a plus sign before the hours as they are written, without
//! padding. An offset of ten to twenty-three hours east gives a label that
//! a stamp may end in; any other offset gives one that no stamp ends in,
//! and every date and time of day read with it is zero.

use vstd::prelude::*;
use vstd::string::to_string_from_display_ensures;
use chrono::{Datelike, Timelike};
use crate::dashboard::{Date, Time};

verus! {

/// The date and the time of day that a stamp names, in the local time of
/// the stamp.
#[derive(Clone, Copy, Debug, PartialEq, Eq, Structural)]
pub struct Stamp {
    pub date: Date,
    pub time: Time,
}

/// What `chrono` reads from a text as an RFC 3339 stamp: the date and the
/// time of day that the text names, or `None` if the text is no such stamp.
pub uninterp spec fn rfc3339_stamp(text: Seq<char>) -> Option<Stamp>;

/// Reads `text` as an RFC 3339 stamp with `chrono`:
/// `DateTime::parse_from_rfc3339`, then the fields of the result by
/// `Datelike::{year, month, day}` and `Timelike::{hour, minute, second}`.
///
/// Trusted: the result depends on the text alone.
#[verifier::external_body]
pub(crate) fn read_rfc3339(text: &str) -> (r: Option<Stamp>)
    ensures
        r == rfc3339_stamp(text@),
{
    match chrono::DateTime::parse_from_rfc3339(text) {
        Ok(at) => {
            let (month, day) = (at.month() as i32, at.day() as i32);
            let date = Date { year: at.year(), month, day };
            let (minute, second) = (at.minute() as i32, at.second() as i32);
            let time = Time { hour: at.hour() as i32, minute, second };
            Some(Stamp { date, time })
        },
        Err(_) => None,
    }
}

/// Whole hours of an offset given in seconds, rounded towards zero.
pub open spec fn offset_hours(utc_offset_seconds: int) -> int {
    if utc_offset_seconds >= 0 {
        utc_offset_seconds / 3600
    } else {
        -((-utc_offset_seconds) / 3600)
    }
}

/// The label of an offset whose whole hours are written `hours`: a plus
/// sign, the hours, and zero minutes.
pub open spec fn offset_label(hours: Seq<char>) -> Seq<char> {
    "+"@ + hours + ":00"@
}

/// The stamp of the midnight that begins `day`, at the offset `label`.
pub open spec fn day_stamp(day: Seq<char>, label: Seq<char>) -> Seq<char> {
    day + "T00:00:00"@ + label
}

/// The stamp of the start of `minute`, at the offset `label`.
pub open spec fn minute_stamp(minute: Seq<char>, label: Seq<char>) -> Seq<char> {
    minute + ":00"@ + label
}

/// The date of a stamp; zero where there is no stamp.
pub open spec fn date_of(stamp: Option<Stamp>) -> Date {
    match stamp {
        Some(s) => s.date,
        None => Date { year: 0, month: 0, day: 0 },
    }
}

/// The time of day of a stamp; zero where there is no stamp.
pub open spec fn time_of(stamp: Option<Stamp>) -> Time {
    match stamp {
        Some(s) => s.time,
        None => Time { hour: 0, minute: 0, second: 0 },
    }
}

/// Whole hours of an offset given in seconds, rounded towards zero.
pub fn utc_offset_hours(utc_offset_seconds: i32) -> (r: i32)
    ensures
        r == offset_hours(utc_offset_seconds as int),
{
    utc_offset_seconds / 60 / 60
}

/// The label of an offset given in seconds: a plus sign, the whole hours in
/// decimal, and zero minutes.
pub fn utc_offset_label(utc_offset_seconds: i32) -> (r: String)
    ensures
        exists|hours: String|
            #![auto]
            to_string_from_display_ensures::<i32>(
                &(offset_hours(utc_offset_seconds as int) as i32),
                hours,
            ) && r@ == offset_label(hours@),
{
    let hours: i32 = utc_offset_hours(utc_offset_seconds);
    let written: String = hours.to_string();
    let mut label: String = String::from_str("+");
    label.append(written.as_str());
    label.append(":00");
    label
}

/// The date that a stamp names; zero where there is no stamp.
pub fn date_from_stamp(stamp: Option<Stamp>) -> (r: Date)
    ensures
        r == date_of(stamp),
{
    let mut date = Date::default();
    if let Some(s) = stamp {
        date.year = s.date.year;
        date.month = s.date.month;
        date.day = s.date.day;
    }
    date
}

/// The time of day that a stamp names; zero where there is no stamp.
pub fn time_from_stamp(stamp: Option<Stamp>) -> (r: Time)
    ensures
        r == time_of(stamp),
{
    let mut time = Time::default();
    if let Some(s) = stamp {
        time.hour = s.time.hour;
        time.minute = s.time.minute;
        time.second = s.time.second;
    }
    time
}

/// The date of a day of the forecast, named as in `2024-05-13`, at the
/// offset `label`; zero where the stamp made of the two cannot be read.
pub fn forecast_date(day: &str, label: &str) -> (r: Date)
    ensures
        r == date_of(rfc3339_stamp(day_stamp(day@, label@))),
{
    let mut text: String = String::from_str(day);
    text.append("T00:00:00");
    text.append(label);
    date_from_stamp(read_rfc3339(text.as_str()))
}

/// The time of day of a minute of the forecast, named as in
/// `2024-05-13T05:42`, at the offset `label`; zero where the stamp made of
/// the two cannot be read.
pub fn forecast_time(minute: &str, label: &str) -> (r: Time)
    ensures
        r == time_of(rfc3339_stamp(minute_stamp(minute@, label@))),
{
    let mut text: String = String::from_str(minute);
    text.append(":00");
    text.append(label);
    time_from_stamp(read_rfc3339(text.as_str()))
}

/// The date of a day of the forecast with the times of day at which the
/// sun rises and sets on it.
#[derive(Clone, Copy, Debug, PartialEq, Eq, Structural)]
pub struct DayTimes {
    pub date: Date,
    pub sunrise: Time,
    pub sunset: Time,
}

/// What the forecast says of one day, named `day`, on which the sun rises
/// in the minute `sunrise` and sets in the minute `sunset`, at the offset
/// `label`.
pub open spec fn day_times_of(
    day: Seq<char>,
    sunrise: Seq<char>,
    sunset: Seq<char>,
    label: Seq<char>,
) -> DayTimes {
    DayTimes {
        date: date_of(rfc3339_stamp(day_stamp(day, label))),
        sunrise: time_of(rfc3339_stamp(minute_stamp(sunrise, label))),
        sunset: time_of(rfc3339_stamp(minute_stamp(sunset, label))),
    }
}

/// The dates, sunrises and sunsets of the days of a forecast, day by day
/// in the order of `days`. Beside each day stand its sunrise and its
/// sunset; what `sunrises` and `sunsets` hold beyond the last day is left
/// unread.
pub fn forecast_day_times(
    days: &Vec<String>,
    sunrises: &Vec<String>,
    sunsets: &Vec<String>,
    label: &str,
) -> (r: Vec<DayTimes>)
    requires
        days.len() <= sunrises.len(),
        days.len() <= sunsets.len(),
    ensures
        r.len() == days.len(),
        forall|i: int|
            0 <= i < days.len() ==> #[trigger] r[i] == day_times_of(
                days[i]@,
                sunrises[i]@,
                sunsets[i]@,
                label@,
            ),
{
    let mut times: Vec<DayTimes> = Vec::new();
    let mut i: usize = 0;
    while i < days.len()
        invariant
            i <= days.len(),
            days.len() <= sunrises.len(),
            days.len() <= sunsets.len(),
            times.len() == i,
            forall|k: int|
                0 <= k < i ==> #[trigger] times[k] == day_times_of(
                    days[k]@,
                    sunrises[k]@,
                    sunsets[k]@,
                    label@,
                ),
        decreases days.len() - i,
    {
        let date = forecast_date(days[i].as_str(), label);
        let sunrise = forecast_time(sunrises[i].as_str(), label);
        let sunset = forecast_time(sunsets[i].as_str(), label);
        times.push(DayTimes { date, sunrise, sunset });
        i += 1;
    }
    times
}

/// Class of the icon that stands for a weather code of the forecast.
/// Codes without an icon of their own share one.
pub open spec fn icon_class_of(code: int) -> Seq<char> {
    if code == 0 || code == 1 {
        "wi-day-sunny"@
    } else if code == 2 || code == 3 {
        "wi-day-cloudy"@
    } else if code == 45 || code == 48 {
        "wi-fog"@
    } else if code == 51 || code == 53 || code == 55 {
        "wi-sprinkle"@
    } else if code == 56 || code == 57 {
        "wi-snow"@
    } else if code == 61 || code == 63 || code == 65 {
        "wi-raindrop"@
    } else if code == 66 || code == 67 {
        "wi-rain-mix"@
    } else if code == 71 || code == 73 || code == 75 {
        "wi-snowflake-cold"@
    } else if code == 77 {
        "wi-snow-wind"@
    } else if code == 80 || code == 81 || code == 82 {
        "wi-rain"@
    } else if code == 85 || code == 86 {
        "wi-day-snow-thunderstorm"@
    } else if code == 95 || code == 96 || code == 99 {
        "wi-day-thunderstorm"@
    } else {
        "wi-meteor"@
    }
}

/// Class of the icon to show for a weather code of the forecast.
pub fn weather_icon_class(code: i32) -> (r: &'static str)
    ensures
        r@ == icon_class_of(code as int),
{
    match code {
        0 | 1 => "wi-day-sunny",
        2 | 3 => "wi-day-cloudy",
        45 | 48 => "wi-fog",
        51 | 53 | 55 => "wi-sprinkle",
        56 | 57 => "wi-snow",
        61 | 63 | 65 => "wi-raindrop",
        66 | 67 => "wi-rain-mix",
        71 | 73 | 75 => "wi-snowflake-cold",
        77 => "wi-snow-wind",
        80 | 81 | 82 => "wi-rain",
        85 | 86 => "wi-day-snow-thunderstorm",
        95 | 96 | 99 => "wi-day-thunderstorm",
        _ => "wi-meteor",
    }
}

} // verus!
