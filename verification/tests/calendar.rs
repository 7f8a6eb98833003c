use anki_classroom::calendar::{
    days_before_today, days_since_epoch, format_date, format_last_active, start_of_today,
    start_of_tomorrow, start_of_week, study_streak,
};

// 2023-11-14 22:13:20 UTC, a Tuesday.
const NOW: i64 = 1_700_000_000;
const TODAY: i64 = 1_699_920_000;
const DAY: i64 = 86_400;

#[test]
fn day_boundaries() {
    assert_eq!(days_since_epoch(NOW), 19_675);
    assert_eq!(days_since_epoch(2 * DAY + 5), 2);
    assert_eq!(start_of_today(NOW), TODAY);
    assert_eq!(start_of_tomorrow(NOW), TODAY + DAY);
    assert_eq!(days_before_today(NOW, 6), TODAY - 6 * DAY);
    assert_eq!(days_before_today(NOW, 0), TODAY);
}

#[test]
fn weeks_start_on_monday() {
    // Monday 2023-11-13.
    assert_eq!(start_of_week(NOW), 1_699_833_600);
    // 1 January 1970 was a Thursday: its week began on Monday 29 December 1969.
    assert_eq!(start_of_week(0), -3 * DAY);
    assert_eq!(start_of_week(1_699_833_600), 1_699_833_600);
}

#[test]
fn streak_counts_back_from_yesterday_without_reviews_today() {
    let times = [TODAY - 100, TODAY - DAY - 100, TODAY - 4 * DAY];
    assert_eq!(study_streak(&times, 0, TODAY, NOW), 2);
}

#[test]
fn streak_counts_today_when_reviewed_today() {
    let times = [TODAY - 100, TODAY - DAY - 100];
    assert_eq!(study_streak(&times, 4, TODAY, NOW), 3);
    assert_eq!(study_streak(&times, 0, TODAY, NOW), 2);
}

#[test]
fn streak_broken_by_a_gap() {
    let times = [TODAY - 2 * DAY];
    assert_eq!(study_streak(&times, 0, TODAY, NOW), 0);
    assert_eq!(study_streak(&[], 0, TODAY, NOW), 0);
    assert_eq!(study_streak(&[], 1, TODAY, NOW), 1);
}

#[test]
fn dates_are_utc_calendar_days() {
    assert_eq!(format_date(0), "1970-01-01");
    assert_eq!(format_date(NOW), "2023-11-14");
    assert_eq!(format_date(-1), "1969-12-31");
    assert_eq!(format_last_active(Some(TODAY)), Some("2023-11-14".to_string()));
    assert_eq!(format_last_active(None), None);
}

#[test]
fn streak_counts_each_day_once() {
    let times = [TODAY - 100, TODAY - 200, TODAY - DAY - 5, TODAY - DAY - 7, TODAY - 100];
    assert_eq!(study_streak(&times, 0, TODAY, NOW), 2);
    assert_eq!(study_streak(&times, 2, TODAY, NOW), 3);
}
