//! Dimming of the display outside the hours of daylight.

use vstd::prelude::*;
use crate::instant::{CivilInstant, ObservationInstant};

verus! {

/// First hour of the day at which the display is at full brightness.
pub const DAYLIGHT_START_HOUR: u32 = 7;

/// First hour of the evening at which the display is dimmed again.
pub const DAYLIGHT_END_HOUR: u32 = 20;

/// Whether the display is dimmed at `now`: before 07:00 and from 20:00 on.
pub open spec fn dim_at(now: CivilInstant) -> bool {
    !(DAYLIGHT_START_HOUR <= now.hour < DAYLIGHT_END_HOUR)
}

/// Whether the display is to be dimmed at `now`.
pub fn should_dim(now: &ObservationInstant) -> (r: bool)
    ensures
        r == dim_at(now@),
{
    let hour: u32 = now.hour();
    !(DAYLIGHT_START_HOUR <= hour && hour < DAYLIGHT_END_HOUR)
}

} // verus!
