//! Day arithmetic on Unix timestamps (UTC days of 86400 seconds), study
//! streaks, and date labels.

use vstd::prelude::*;

use chrono::TimeZone;
use std::collections::HashSet;

verus! {

broadcast use vstd::std_specs::hash::group_hash_axioms;

/// Integer division rounding toward zero, as Rust's `/` on integers.
pub open spec fn tdiv(a: int, b: int) -> int {
    if a >= 0 {
        a / b
    } else {
        -((-a) / b)
    }
}

/// The remainder that goes with [`tdiv`], as Rust's `%` on integers.
pub open spec fn trem(a: int, b: int) -> int {
    a - b * tdiv(a, b)
}

/// The day number of a timestamp (`ts / 86400`).
pub fn days_since_epoch(ts: i64) -> (r: i64)
    ensures
        r == tdiv(ts as int, 86400),
{
    ts / 86400
}

/// The start of the day that `now` falls in, computed as
/// `now - now % 86400`.
pub open spec fn day_start(now: int) -> int {
    now - trem(now, 86400)
}

/// The start of the week that `now` falls in (weeks start on Monday; day 0,
/// 1 January 1970, was a Thursday).
pub open spec fn week_start(now: int) -> int {
    let days = tdiv(now, 86400);
    (days - trem(days + 3, 7)) * 86400
}

/// The start of the day that `now` falls in.
pub fn start_of_today(now: i64) -> (r: i64)
    ensures
        r == day_start(now as int),
{
    now - now % 86400
}

/// The start of the next day.
pub fn start_of_tomorrow(now: i64) -> (r: i64)
    requires
        day_start(now as int) + 86400 <= i64::MAX,
    ensures
        r == day_start(now as int) + 86400,
{
    now - now % 86400 + 86400
}

/// The start of the week.
pub fn start_of_week(now: i64) -> (r: i64)
    requires
        i64::MIN <= week_start(now as int),
    ensures
        r == week_start(now as int),
{
    let days = now / 86400;
    let since_monday = (days + 3) % 7;
    assert(-6 <= since_monday <= 6);
    (days - since_monday) * 86400
}

/// A timestamp `days` days before the start of the day of `now`.
pub fn days_before_today(now: i64, days: i64) -> (r: i64)
    requires
        i64::MIN <= day_start(now as int) - days * 86400 <= i64::MAX,
        i64::MIN <= days * 86400 <= i64::MAX,
    ensures
        r == day_start(now as int) - days * 86400,
{
    start_of_today(now) - days * 86400
}

/// For any time since the epoch, the start of its day is midnight UTC of
/// that day: a whole number of days, at most `now` and less than a day
/// before it; the next day starts a day later.
pub proof fn law_day_start(now: int)
    requires
        0 <= now,
    ensures
        day_start(now) % 86400 == 0,
        day_start(now) <= now < day_start(now) + 86400,
{
}

/// For any time since the epoch, its week starts on the Monday on or before
/// its day: a whole number of days, a Monday (the day number plus three is a
/// multiple of seven), at most `now` and less than seven days before it.
pub proof fn law_week_starts_monday(now: int)
    requires
        0 <= now,
    ensures
        week_start(now) % 86400 == 0,
        (week_start(now) / 86400 + 3) % 7 == 0,
        week_start(now) <= day_start(now) <= now < week_start(now) + 7 * 86400,
{
    let days = now / 86400;
    assert(week_start(now) == (days - (days + 3) % 7) * 86400);
    assert((days - (days + 3) % 7) * 86400 / 86400 == days - (days + 3) % 7) by (nonlinear_arith);
    assert((days - (days + 3) % 7) * 86400 % 86400 == 0) by (nonlinear_arith);
    assert(day_start(now) == days * 86400);
}

/// Whether day `d` is a study day: a day of one of the reviews, or the
/// current day when there were reviews today.
pub open spec fn is_study_day(review_days: Seq<int>, extra: Option<int>, d: int) -> bool {
    review_days.contains(d) || extra == Some(d)
}

/// The days of the given timestamps.
pub open spec fn days_of(times: Seq<i64>) -> Seq<int> {
    times.map_values(|t: i64| tdiv(t as int, 86400))
}

/// The current day, counted as a study day when there were reviews today.
pub open spec fn streak_extra(reviews_today: int, now: int) -> Option<int> {
    if reviews_today > 0 {
        Some(tdiv(now, 86400))
    } else {
        None
    }
}

/// The day the streak counts back from: today when there were reviews
/// today, else yesterday (`today` is the start of today).
pub open spec fn streak_start(reviews_today: int, today: int) -> int {
    if reviews_today > 0 {
        tdiv(today, 86400)
    } else {
        tdiv(today, 86400) - 1
    }
}

/// The study streak: how many consecutive days, counting back from today
/// when there were reviews today (else from yesterday), each had a review.
///
/// `review_times` are the review timestamps, `reviews_today` the number of
/// reviews since the start of today, `today` the start of today and `now`
/// the current time.
pub fn study_streak(review_times: &[i64], reviews_today: i64, today: i64, now: i64) -> (r: i64)
    ensures
        r >= 0,
        forall|d: int|
            streak_start(reviews_today as int, today as int) - r < d <= streak_start(
                reviews_today as int,
                today as int,
            ) ==> #[trigger] is_study_day(
                days_of(review_times@),
                streak_extra(reviews_today as int, now as int),
                d,
            ),
        !is_study_day(
            days_of(review_times@),
            streak_extra(reviews_today as int, now as int),
            streak_start(reviews_today as int, today as int) - r,
        ),
{
    let mut days: HashSet<i64> = HashSet::new();
    let mut i: usize = 0;
    while i < review_times.len()
        invariant
            i <= review_times.len(),
            forall|x: i64|
                #[trigger] days@.contains(x) <==> days_of(review_times@.take(i as int)).contains(
                    x as int,
                ),
            forall|x: i64| #[trigger]
                days@.contains(x) ==> -0x8000_0000_0000 <= x <= 0x8000_0000_0000,
        decreases review_times.len() - i,
    {
        let d: i64 = review_times[i] / 86400;
        let ghost before = days_of(review_times@.take(i as int));
        days.insert(d);
        let ghost after = days_of(review_times@.take(i + 1));
        assert(after =~= before.push(d as int));
        assert forall|x: i64| #[trigger] days@.contains(x) <==> after.contains(x as int) by {
            if after.contains(x as int) {
                let k = choose|k: int| 0 <= k < after.len() && after[k] == x as int;
                if k < before.len() {
                    assert(before[k] == x as int);
                }
            }
            if before.contains(x as int) {
                let k = choose|k: int| 0 <= k < before.len() && before[k] == x as int;
                assert(after[k] == x as int);
            }
            if x == d {
                assert(after[before.len() as int] == x as int);
            }
        }
        i = i + 1;
    }
    assert(review_times@.take(review_times.len() as int) =~= review_times@);
    let ghost all_days = days_of(review_times@);
    let ghost extra = streak_extra(reviews_today as int, now as int);
    if reviews_today > 0 {
        let nd: i64 = now / 86400;
        days.insert(nd);
    }
    assert(forall|x: i64| #[trigger] days@.contains(x) <==> is_study_day(all_days, extra, x as int));
    let start: i64 = if reviews_today > 0 {
        today / 86400
    } else {
        today / 86400 - 1
    };
    let mut check: i64 = start;
    let mut streak: i64 = 0;
    while days.contains(&check)
        invariant
            forall|x: i64| #[trigger] days@.contains(x) <==> is_study_day(all_days, extra, x as int),
            forall|x: i64| #[trigger]
                days@.contains(x) ==> -0x8000_0000_0000 <= x <= 0x8000_0000_0000,
            start == streak_start(reviews_today as int, today as int),
            -0x8000_0000_0000 - 1 <= check <= start,
            start <= 0x8000_0000_0000,
            streak == start - check,
            forall|d: int| check < d <= start ==> #[trigger] is_study_day(all_days, extra, d),
        decreases check + 0x8000_0000_0001,
    {
        assert(is_study_day(all_days, extra, check as int));
        streak = streak + 1;
        check = check - 1;
    }
    assert(!is_study_day(all_days, extra, check as int));
    streak
}

/// The `YYYY-MM-DD` UTC date of a timestamp, as chrono formats it with
/// `%Y-%m-%d`.
pub uninterp spec fn utc_date_text(ts: i64) -> Seq<char>;

/// The least timestamp that chrono represents.
pub open spec fn min_timestamp() -> int {
    -8_334_601_315_200
}

/// The greatest timestamp that chrono represents.
pub open spec fn max_timestamp() -> int {
    8_210_266_876_799
}

/// `chrono::Utc.timestamp_opt(ts, 0).unwrap().format("%Y-%m-%d").to_string()`:
/// the UTC calendar date of a timestamp. It panics outside chrono's range,
/// which `requires` leaves out; the text is named by [`utc_date_text`].
#[verifier::external_body]
fn chrono_utc_date(ts: i64) -> (r: String)
    requires
        min_timestamp() <= ts <= max_timestamp(),
    ensures
        r@ == utc_date_text(ts),
{
    chrono::Utc.timestamp_opt(ts, 0).unwrap().format("%Y-%m-%d").to_string()
}

/// The UTC date of a timestamp, `YYYY-MM-DD`.
pub fn format_date(ts: i64) -> (r: String)
    requires
        min_timestamp() <= ts <= max_timestamp(),
    ensures
        r@ == utc_date_text(ts),
{
    chrono_utc_date(ts)
}

/// The date of a last activity, if there was one.
pub fn format_last_active(ts: Option<i64>) -> (r: Option<String>)
    requires
        ts matches Some(t) ==> min_timestamp() <= t <= max_timestamp(),
    ensures
        match ts {
            Some(t) => r matches Some(s) && s@ == utc_date_text(t),
            None => r is None,
        },
{
    match ts {
        Some(t) => Some(format_date(t)),
        None => None,
    }
}

} // verus!
