//! The bin schedule: which of the two alternating bins goes out with the
//! next weekly collection, and how many days remain until that collection.
//!
//! Collection is weekly, on the weekday of the reference epoch (a Monday).
//! The epoch itself is a collection day of the yellow bin; one week later
//! the green bin is collected, and so on in turn.
//!
//! Three choices are fixed here:
//!
//! - Days are whole calendar days, and days before the epoch count
//!   backwards: the day before the epoch is day -1 and stands at position
//!   13 of the fortnight. The schedule so repeats itself before the epoch
//!   as after it, and the time of day plays no part.
//! - The green week is the seven days that end with the green collection
//!   day, positions 1 to 7 of the fortnight. The yellow collection day at
//!   position 0 and the six days before the next one, positions 8 to 13,
//!   are yellow. Up to and on a collection day the colour shown is thus the
//!   colour that is collected on that day. A green week that ended earlier
//!   would show yellow on the morning of a green collection.
//! - The days to the bin count down and follow the weekday alone: 0 on the
//!   day of collection, 6 on the day after it, 1 on the day before the
//!   next. They do not count the days gone by since the last collection.

use vstd::prelude::*;
use crate::instant::{CivilInstant, ObservationInstant, SECONDS_PER_DAY};
use crate::calendar::days_before_month;
use crate::dashboard::Dashboard;

verus! {

/// Year of the reference epoch.
pub const REFERENCE_YEAR: i32 = 2024;

/// Month of the reference epoch.
pub const REFERENCE_MONTH: u32 = 5;

/// Day of the month of the reference epoch.
pub const REFERENCE_DAY: u32 = 13;

/// Length in days of the cycle in which the two bins alternate.
pub const CYCLE_DAYS: i64 = 14;

/// Last day of the cycle, counted from the yellow collection day as day 0,
/// on which the green bin is the next to be collected.
pub const LAST_GREEN_DAY: i64 = 7;

/// Number of days from one collection to the next.
pub const DAYS_PER_WEEK: u32 = 7;

/// Weekday of the collection, counted from Monday as 0.
pub const COLLECTION_WEEKDAY: u32 = 0;

/// The alternating bin.
#[derive(Clone, Copy, Debug, PartialEq, Eq, Structural)]
pub enum BinVariation {
    Yellow,
    Green,
}

/// What the schedule says at one instant.
#[derive(Clone, Copy, Debug, PartialEq, Eq, Structural)]
pub struct BinScheduleResult {
    /// Whether the yellow bin goes out with the next collection.
    pub is_yellow_bin: bool,
    /// Days until the next collection; 0 on the day of collection.
    pub days_to_bin: i32,
}

/// Local midnight at the start of 2024-05-13, a day on which the yellow bin
/// was collected.
pub open spec fn reference_epoch() -> CivilInstant {
    CivilInstant {
        year: REFERENCE_YEAR as int,
        month: REFERENCE_MONTH as int,
        day: REFERENCE_DAY as int,
        hour: 0,
        minute: 0,
        second: 0,
    }
}

/// Number of whole days from `earlier` to `later`, rounded towards the past:
/// negative as soon as `later` lies before `earlier`.
pub open spec fn whole_days_between(later: CivilInstant, earlier: CivilInstant) -> int {
    (later.seconds_from_ce() - earlier.seconds_from_ce()) / (SECONDS_PER_DAY as int)
}

/// Whole days from the reference epoch to `now`.
pub open spec fn whole_days_since_epoch(now: CivilInstant) -> int {
    whole_days_between(now, reference_epoch())
}

/// Position within the fortnight, 0 to 13, of a day that lies `diff_days`
/// after the reference epoch; days before the epoch count backwards.
pub open spec fn cycle_position(diff_days: int) -> int {
    diff_days % (CYCLE_DAYS as int)
}

/// Whether the yellow bin is the next to be collected at a position of the
/// fortnight.
pub open spec fn is_yellow_position(position: int) -> bool {
    !(position != 0 && position <= LAST_GREEN_DAY)
}

/// Whether the yellow bin goes out with the next collection as seen at `now`.
pub open spec fn yellow_bin_at(now: CivilInstant) -> bool {
    is_yellow_position(cycle_position(whole_days_since_epoch(now)))
}

/// Days from a weekday, counted from Monday as 0, to the next collection.
pub open spec fn days_until_collection(weekday_from_monday: int) -> int {
    (DAYS_PER_WEEK - weekday_from_monday) % (DAYS_PER_WEEK as int)
}

/// Days from `now` to the next collection; 0 on the day of collection.
pub open spec fn days_to_bin_at(now: CivilInstant) -> int {
    days_until_collection(now.weekday_from_monday())
}

/// The schedule as seen at `now`.
pub open spec fn schedule_at(now: CivilInstant) -> BinScheduleResult {
    BinScheduleResult {
        is_yellow_bin: yellow_bin_at(now),
        days_to_bin: days_to_bin_at(now) as i32,
    }
}

/// The reference epoch is a date that exists, its day number is 739019, and
/// it is a Monday.
pub proof fn lemma_reference_epoch_is_a_monday()
    ensures
        reference_epoch().is_valid(),
        reference_epoch().day_number() == 739_019,
        reference_epoch().weekday_from_monday() == COLLECTION_WEEKDAY,
{
    reveal_with_fuel(days_before_month, 6);
}

/// Between an instant and a midnight, the whole days are the difference of
/// the day numbers: the time of day of the instant plays no part.
pub proof fn lemma_whole_days_is_day_difference(now: CivilInstant, midnight: CivilInstant)
    requires
        0 <= now.second_of_day() < SECONDS_PER_DAY,
        midnight.second_of_day() == 0,
    ensures
        whole_days_between(now, midnight) == now.day_number() - midnight.day_number(),
{
    let days = now.day_number() - midnight.day_number();
    let seconds = now.seconds_from_ce() - midnight.seconds_from_ce();
    assert(seconds == SECONDS_PER_DAY * days + now.second_of_day());
}

/// The colour depends on the instant only through the whole days since the
/// reference epoch, taken modulo the length of the cycle.
pub proof fn lemma_yellow_depends_on_cycle_position_only(a: CivilInstant, b: CivilInstant)
    requires
        cycle_position(whole_days_since_epoch(a)) == cycle_position(whole_days_since_epoch(b)),
    ensures
        yellow_bin_at(a) == yellow_bin_at(b),
{
}

/// Two instants on the same day see the same schedule, whatever their
/// times of day.
pub proof fn lemma_schedule_ignores_time_of_day(a: CivilInstant, b: CivilInstant)
    requires
        a.is_valid(),
        b.is_valid(),
        a.day_number() == b.day_number(),
    ensures
        schedule_at(a) == schedule_at(b),
{
    lemma_whole_days_is_day_difference(a, reference_epoch());
    lemma_whole_days_is_day_difference(b, reference_epoch());
}

/// The colour repeats every fourteen days, before the epoch as after it.
pub proof fn lemma_yellow_has_period_fourteen(now: CivilInstant, later: CivilInstant)
    requires
        now.is_valid(),
        later.is_valid(),
        later.day_number() == now.day_number() + CYCLE_DAYS,
    ensures
        yellow_bin_at(later) == yellow_bin_at(now),
{
    lemma_whole_days_is_day_difference(now, reference_epoch());
    lemma_whole_days_is_day_difference(later, reference_epoch());
}

/// At the reference epoch the yellow bin is due.
pub proof fn lemma_yellow_at_reference_epoch()
    ensures
        yellow_bin_at(reference_epoch()),
{
}

/// Each fortnight holds one unbroken run of seven green days, the days 1 to
/// 7 after its first day; its first day and its last six days are yellow.
/// A fortnight here starts on a day that lies a whole number of fortnights
/// from the reference epoch.
pub proof fn lemma_one_green_week_per_cycle(first: CivilInstant, now: CivilInstant)
    requires
        first.is_valid(),
        now.is_valid(),
        cycle_position(whole_days_since_epoch(first)) == 0,
        0 <= now.day_number() - first.day_number() < CYCLE_DAYS,
    ensures
        !yellow_bin_at(now) <==> (1 <= now.day_number() - first.day_number() <= LAST_GREEN_DAY),
{
    lemma_whole_days_is_day_difference(first, reference_epoch());
    lemma_whole_days_is_day_difference(now, reference_epoch());
}

/// The days to the next collection repeat every seven days.
pub proof fn lemma_days_to_bin_has_period_seven(now: CivilInstant, later: CivilInstant)
    requires
        later.day_number() == now.day_number() + DAYS_PER_WEEK,
    ensures
        days_to_bin_at(later) == days_to_bin_at(now),
{
}

/// The days to the next collection are 0 exactly on the weekday of the
/// reference epoch, a Monday, and 1 to 6 on every other day.
pub proof fn lemma_zero_days_iff_collection_weekday(now: CivilInstant)
    ensures
        days_to_bin_at(now) == 0 <==> (now.weekday_from_monday()
            == reference_epoch().weekday_from_monday()),
        reference_epoch().weekday_from_monday() == COLLECTION_WEEKDAY,
        days_to_bin_at(now) != 0 ==> 1 <= days_to_bin_at(now) <= 6,
{
    lemma_reference_epoch_is_a_monday();
}

/// The colour shown is that of the next collection: counting the days to
/// the bin forward from `now` leads to a collection day with the same
/// colour, and a collection day is yellow exactly when it lies a whole
/// number of fortnights from the reference epoch.
pub proof fn lemma_colour_is_that_of_next_collection(now: CivilInstant, collection: CivilInstant)
    requires
        now.is_valid(),
        collection.is_valid(),
        collection.day_number() == now.day_number() + days_to_bin_at(now),
    ensures
        days_to_bin_at(collection) == 0,
        yellow_bin_at(collection) == yellow_bin_at(now),
        yellow_bin_at(collection) <==> (cycle_position(whole_days_since_epoch(collection)) == 0),
{
    lemma_reference_epoch_is_a_monday();
    lemma_whole_days_is_day_difference(now, reference_epoch());
    lemma_whole_days_is_day_difference(collection, reference_epoch());
}

/// The instant of the reference epoch.
pub fn reference_instant() -> (r: ObservationInstant)
    ensures
        r@ == reference_epoch(),
{
    let instant = ObservationInstant::new(REFERENCE_YEAR, REFERENCE_MONTH, REFERENCE_DAY, 0, 0, 0);
    instant.unwrap()
}

/// Whole days from the reference epoch to `now`; negative before the epoch.
pub fn get_whole_days_since_epoch(now: &ObservationInstant) -> (r: i64)
    ensures
        r == whole_days_since_epoch(now@),
        r == now@.day_number() - reference_epoch().day_number(),
{
    let epoch = reference_instant();
    let today: i32 = now.day_number();
    let first: i32 = epoch.day_number();
    proof {
        lemma_whole_days_is_day_difference(now@, epoch@);
    }
    today as i64 - first as i64
}

/// Whether the yellow bin is the next to be collected on a day that lies
/// `diff_days` whole days after the reference epoch.
pub fn is_yellow_after(diff_days: i64) -> (r: bool)
    ensures
        r == is_yellow_position(cycle_position(diff_days as int)),
{
    let position: i64 = ((diff_days % CYCLE_DAYS) + CYCLE_DAYS) % CYCLE_DAYS;
    !(position != 0 && position <= LAST_GREEN_DAY)
}

/// Whether the yellow bin goes out with the next collection.
pub fn is_yellow_bin(now: &ObservationInstant) -> (r: bool)
    ensures
        r == yellow_bin_at(now@),
{
    is_yellow_after(get_whole_days_since_epoch(now))
}

/// The bin that goes out with the next collection beside the weekly one.
pub fn get_alternate_bin(now: &ObservationInstant) -> (r: BinVariation)
    ensures
        r == if yellow_bin_at(now@) {
            BinVariation::Yellow
        } else {
            BinVariation::Green
        },
{
    if is_yellow_bin(now) {
        BinVariation::Yellow
    } else {
        BinVariation::Green
    }
}

/// Days from a weekday, counted from Monday as 0, to the next collection.
pub fn days_from_weekday(weekday_from_monday: u32) -> (r: i32)
    ensures
        r == days_until_collection(weekday_from_monday as int),
        0 <= r <= 6,
{
    let elapsed: u32 = weekday_from_monday % DAYS_PER_WEEK;
    let remaining: u32 = (DAYS_PER_WEEK - elapsed) % DAYS_PER_WEEK;
    remaining as i32
}

/// Days until the next collection: 0 on the day of collection, otherwise
/// 1 to 6.
pub fn get_days_to_bin(now: &ObservationInstant) -> (r: i32)
    ensures
        r == days_to_bin_at(now@),
        0 <= r <= 6,
        r == 0 <==> (now@.weekday_from_monday() == COLLECTION_WEEKDAY),
{
    days_from_weekday(now.weekday_index_from_monday())
}

/// The schedule as seen at `now`.
pub fn bin_schedule(now: &ObservationInstant) -> (r: BinScheduleResult)
    ensures
        r == schedule_at(now@),
        r.is_yellow_bin == yellow_bin_at(now@),
        r.days_to_bin == days_to_bin_at(now@),
{
    BinScheduleResult { is_yellow_bin: is_yellow_bin(now), days_to_bin: get_days_to_bin(now) }
}

/// Puts the schedule as seen at `now` on display and leaves the rest as it
/// is.
pub fn set_bins(api: &mut Dashboard, now: &ObservationInstant)
    ensures
        final(api).is_yellow_bin == yellow_bin_at(now@),
        final(api).days_to_bin == days_to_bin_at(now@),
        final(api).current_date == old(api).current_date,
        final(api).current_time == old(api).current_time,
{
    api.is_yellow_bin = is_yellow_bin(now);
    api.days_to_bin = get_days_to_bin(now);
}

} // verus!
