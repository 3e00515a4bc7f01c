use tracing_utils::date::{
    leap_year, month_length, DATETIME_PATTERN, DATE_PATTERN, MAX_YEAR, MIN_YEAR,
};
use tracing_utils::format::NULL_TEXT;
use tracing_utils::{fmt_naive_date, fmt_naive_datetime, NaiveDate};

#[test]
fn leap_year_follows_the_gregorian_rule() {
    assert!(leap_year(2000));
    assert!(leap_year(2024));
    assert!(leap_year(1996));
    assert!(!leap_year(1900));
    assert!(!leap_year(2100));
    assert!(!leap_year(2023));
    assert!(!leap_year(1));
}

#[test]
fn leap_year_reaches_before_year_one() {
    assert!(leap_year(0));
    assert!(leap_year(-4));
    assert!(leap_year(-400));
    assert!(!leap_year(-1));
    assert!(!leap_year(-100));
    assert!(!leap_year(-262143));
    assert!(leap_year(-262144));
    assert!(leap_year(i32::MIN));
    assert!(!leap_year(i32::MAX));
}

#[test]
fn month_length_of_each_month() {
    let common = [31u32, 28, 31, 30, 31, 30, 31, 31, 30, 31, 30, 31];
    let mut month = 1u32;
    for &days in common.iter() {
        assert_eq!(month_length(2023, month), days);
        let in_leap_year = if month == 2 { 29 } else { days };
        assert_eq!(month_length(2024, month), in_leap_year);
        month += 1;
    }
    assert_eq!(month_length(1900, 2), 28);
    assert_eq!(month_length(2000, 2), 29);
}

#[test]
fn year_bounds_are_the_first_and_last_year_of_a_date() {
    assert_eq!(MIN_YEAR, -262143);
    assert_eq!(MAX_YEAR, 262142);
    assert!(NaiveDate::from_ymd_opt(MIN_YEAR, 1, 1).is_some());
    assert!(NaiveDate::from_ymd_opt(MIN_YEAR - 1, 12, 31).is_none());
    assert!(NaiveDate::from_ymd_opt(MAX_YEAR, 12, 31).is_some());
    assert!(NaiveDate::from_ymd_opt(MAX_YEAR + 1, 1, 1).is_none());
    assert_eq!(chrono::NaiveDate::MIN, chrono::NaiveDate::from_ymd_opt(MIN_YEAR, 1, 1).unwrap());
    assert_eq!(chrono::NaiveDate::MAX, chrono::NaiveDate::from_ymd_opt(MAX_YEAR, 12, 31).unwrap());
}

#[test]
fn patterns_are_the_two_fixed_ones() {
    assert_eq!(DATE_PATTERN, "%Y-%m-%d");
    assert_eq!(DATETIME_PATTERN, "%Y-%m-%d %H:%M:%S");
    assert_eq!(NULL_TEXT, "null");
}

#[test]
fn every_day_of_a_leap_year_renders_in_ten_characters() {
    let mut count = 0;
    for month in 1u32..=12 {
        for day in 1u32..=month_length(2024, month) {
            let date = NaiveDate::from_ymd_opt(2024, month, day).unwrap();
            let text = fmt_naive_date(&Some(date));
            assert_eq!(text, format!("2024-{:02}-{:02}", month, day));
            assert_eq!(text.len(), 10);
            count += 1;
        }
    }
    assert_eq!(count, 366);
}

#[test]
fn every_minute_of_a_day_renders_in_nineteen_characters() {
    let date = NaiveDate::from_ymd_opt(1999, 12, 31).unwrap();
    for hour in 0u32..24 {
        for minute in 0u32..60 {
            let text = fmt_naive_datetime(&date.and_hms_opt(hour, minute, 7));
            assert_eq!(text, format!("1999-12-31 {:02}:{:02}:07", hour, minute));
            assert_eq!(text.len(), 19);
        }
    }
}
