//! The rules of a household kiosk: the bin-collection schedule, the clock
//! face, the dimming of the display at night, and the reading of a weather
//! forecast.
//!
//! Every rule is a function of values that the caller observed: the local
//! date-time read from a clock, the texts of a forecast. Nothing here reads
//! a clock or a network itself.
//!
//! - [`bins`]: which bin goes out with the next collection, and in how many
//!   days.
//! - [`instant`]: the observed local date-time.
//! - [`calendar`]: day numbers and weekdays of civil dates.
//! - [`dashboard`]: the values on display.
//! - [`clock`], [`dim`], [`weather`]: the other faces of the display.

pub mod calendar;
pub mod instant;
pub mod dashboard;
pub mod bins;
pub mod clock;
pub mod dim;
pub mod weather;
