use kiosk_dashboard::bins::{
    bin_schedule, days_from_weekday, get_alternate_bin, get_days_to_bin,
    get_whole_days_since_epoch, is_yellow_after, is_yellow_bin, reference_instant, set_bins,
    BinScheduleResult, BinVariation,
};
use kiosk_dashboard::dashboard::{Dashboard, Date, Time};
use kiosk_dashboard::instant::ObservationInstant;

fn at(year: i32, month: u32, day: u32) -> ObservationInstant {
    ObservationInstant::new(year, month, day, 0, 0, 0).unwrap()
}

#[test]
fn epoch_day_is_yellow_and_collection_day() {
    let now = at(2024, 5, 13);
    assert!(is_yellow_bin(&now));
    assert_eq!(get_days_to_bin(&now), 0);
}

#[test]
fn one_week_after_epoch_is_green_collection_day() {
    let now = at(2024, 5, 20);
    assert_eq!(get_whole_days_since_epoch(&now), 7);
    assert!(!is_yellow_bin(&now));
    assert_eq!(get_days_to_bin(&now), 0);
}

#[test]
fn two_weeks_after_epoch_is_yellow_collection_day() {
    let now = at(2024, 5, 27);
    assert_eq!(get_whole_days_since_epoch(&now), 14);
    assert!(is_yellow_bin(&now));
    assert_eq!(get_days_to_bin(&now), 0);
}

#[test]
fn thursday_after_epoch_has_four_days_to_go() {
    let now = at(2024, 5, 16);
    assert_eq!(now.weekday_index_from_monday(), 3);
    assert_eq!(get_days_to_bin(&now), 4);
    assert!(!is_yellow_bin(&now));
}

#[test]
fn three_days_before_epoch_counts_as_day_eleven() {
    let now = at(2024, 5, 10);
    assert_eq!(get_whole_days_since_epoch(&now), -3);
    assert_eq!(is_yellow_bin(&now), is_yellow_after(11));
    assert!(is_yellow_bin(&now));
    assert_eq!(is_yellow_bin(&now), is_yellow_bin(&at(2024, 5, 24)));
    assert_eq!(get_days_to_bin(&now), 3);
}

#[test]
fn boundary_days_of_the_cycle() {
    assert!(is_yellow_after(0));
    assert!(!is_yellow_after(1));
    assert!(!is_yellow_after(6));
    assert!(!is_yellow_after(7));
    assert!(is_yellow_after(8));
    assert!(is_yellow_after(13));
    assert!(is_yellow_after(14));
    assert!(!is_yellow_after(15));
}

#[test]
fn days_before_the_epoch_count_backwards() {
    assert!(is_yellow_after(-1));
    assert!(is_yellow_after(-6));
    assert!(!is_yellow_after(-7));
    assert!(!is_yellow_after(-13));
    assert!(is_yellow_after(-14));
    assert!(!is_yellow_after(-21));
    assert!(is_yellow_after(i64::MIN + 6) == is_yellow_after(i64::MIN + 20));
    assert!(is_yellow_after(i64::MAX) == is_yellow_after(i64::MAX - 14));
}

#[test]
fn colour_has_period_fourteen() {
    let mut diff: i64 = -60;
    while diff <= 60 {
        assert_eq!(is_yellow_after(diff), is_yellow_after(diff + 14));
        diff += 1;
    }
}

#[test]
fn one_green_week_in_each_fortnight() {
    let mut first: i64 = -42;
    while first <= 42 {
        let mut offset: i64 = 0;
        while offset < 14 {
            let green = !is_yellow_after(first + offset);
            assert_eq!(green, (1..=7).contains(&offset));
            offset += 1;
        }
        first += 14;
    }
}

#[test]
fn days_from_each_weekday() {
    assert_eq!(days_from_weekday(0), 0);
    assert_eq!(days_from_weekday(1), 6);
    assert_eq!(days_from_weekday(2), 5);
    assert_eq!(days_from_weekday(3), 4);
    assert_eq!(days_from_weekday(4), 3);
    assert_eq!(days_from_weekday(5), 2);
    assert_eq!(days_from_weekday(6), 1);
}

#[test]
fn days_to_bin_has_period_seven() {
    let first = at(2024, 2, 26).day_number();
    let calendar = [
        at(2024, 2, 26),
        at(2024, 2, 27),
        at(2024, 2, 28),
        at(2024, 2, 29),
        at(2024, 3, 1),
        at(2024, 3, 2),
        at(2024, 3, 3),
        at(2024, 3, 4),
        at(2024, 3, 5),
    ];
    for (i, day) in calendar.iter().enumerate() {
        assert_eq!(day.day_number(), first + i as i32);
    }
    assert_eq!(get_days_to_bin(&calendar[0]), 0);
    assert_eq!(get_days_to_bin(&calendar[7]), 0);
    assert_eq!(get_days_to_bin(&calendar[1]), get_days_to_bin(&calendar[8]));
    assert_eq!(get_days_to_bin(&calendar[1]), 6);
    assert_eq!(get_days_to_bin(&calendar[6]), 1);
}

#[test]
fn zero_days_only_on_mondays() {
    let mut day: u32 = 1;
    while day <= 31 {
        let now = at(2024, 7, day);
        let days = get_days_to_bin(&now);
        if now.weekday_index_from_monday() == 0 {
            assert_eq!(days, 0);
        } else {
            assert!((1..=6).contains(&days));
        }
        day += 1;
    }
    assert_eq!(get_days_to_bin(&at(2024, 7, 1)), 0);
    assert_eq!(get_days_to_bin(&at(2024, 7, 7)), 1);
}

#[test]
fn time_of_day_does_not_matter() {
    let morning = ObservationInstant::new(2024, 5, 12, 0, 0, 1).unwrap();
    let night = ObservationInstant::new(2024, 5, 12, 23, 59, 59).unwrap();
    assert_eq!(get_whole_days_since_epoch(&morning), -1);
    assert_eq!(get_whole_days_since_epoch(&night), -1);
    assert_eq!(bin_schedule(&morning), bin_schedule(&night));
    assert_eq!(bin_schedule(&night), BinScheduleResult { is_yellow_bin: true, days_to_bin: 1 });
    let monday_noon = ObservationInstant::new(2024, 5, 6, 12, 0, 0).unwrap();
    assert_eq!(get_whole_days_since_epoch(&monday_noon), -7);
    assert_eq!(
        bin_schedule(&monday_noon),
        BinScheduleResult { is_yellow_bin: false, days_to_bin: 0 }
    );
}

#[test]
fn reference_instant_is_the_epoch() {
    let epoch = reference_instant();
    assert_eq!(epoch, at(2024, 5, 13));
    assert_eq!(epoch.day_number(), 739_019);
    assert_eq!(epoch.weekday_index_from_monday(), 0);
    assert_eq!(get_whole_days_since_epoch(&epoch), 0);
}

#[test]
fn alternate_bin_follows_the_colour() {
    assert_eq!(get_alternate_bin(&at(2024, 5, 13)), BinVariation::Yellow);
    assert_eq!(get_alternate_bin(&at(2024, 5, 14)), BinVariation::Green);
    assert_eq!(get_alternate_bin(&at(2024, 5, 20)), BinVariation::Green);
    assert_eq!(get_alternate_bin(&at(2024, 5, 21)), BinVariation::Yellow);
    assert_eq!(get_alternate_bin(&at(2024, 6, 3)), BinVariation::Green);
    assert_eq!(get_alternate_bin(&at(2024, 6, 4)), BinVariation::Yellow);
    assert_eq!(get_alternate_bin(&at(2024, 5, 28)), BinVariation::Green);
}

#[test]
fn colour_is_that_of_the_next_collection() {
    let mut day: u32 = 1;
    while day <= 30 {
        let now = at(2025, 9, day);
        let ahead = get_days_to_bin(&now) as u32;
        let collection =
            if day + ahead <= 30 { at(2025, 9, day + ahead) } else { at(2025, 10, day + ahead - 30) };
        assert_eq!(get_days_to_bin(&collection), 0);
        assert_eq!(is_yellow_bin(&now), is_yellow_bin(&collection));
        assert_eq!(is_yellow_bin(&collection), get_whole_days_since_epoch(&collection) % 14 == 0);
        day += 1;
    }
}

#[test]
fn set_bins_touches_only_the_schedule() {
    let mut api = Dashboard {
        is_yellow_bin: true,
        days_to_bin: 9,
        current_date: Date { year: 1, month: 2, day: 3 },
        current_time: Time { hour: 4, minute: 5, second: 6 },
    };
    set_bins(&mut api, &at(2024, 5, 16));
    assert_eq!(
        api,
        Dashboard {
            is_yellow_bin: false,
            days_to_bin: 4,
            current_date: Date { year: 1, month: 2, day: 3 },
            current_time: Time { hour: 4, minute: 5, second: 6 },
        }
    );
    set_bins(&mut api, &at(2024, 5, 27));
    assert!(api.is_yellow_bin);
    assert_eq!(api.days_to_bin, 0);
}
