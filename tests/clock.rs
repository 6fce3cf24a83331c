use std::time::Duration;

use raytracer::clock::{format_seconds, format_time};

#[test]
fn format_time_hours_minutes_seconds() {
    assert_eq!(format_time(Duration::from_secs(3725)), "01:02:05");
}

#[test]
fn format_time_zero() {
    assert_eq!(format_time(Duration::from_secs(0)), "00:00:00");
}

#[test]
fn format_time_drops_fraction_of_a_second() {
    assert_eq!(format_time(Duration::from_millis(59_999)), "00:00:59");
}

#[test]
fn format_time_hours_beyond_two_digits() {
    assert_eq!(format_time(Duration::from_secs(360_000 + 59 * 60 + 7)), "100:59:07");
}

#[test]
fn format_seconds_just_under_a_day() {
    assert_eq!(format_seconds(86_399), "23:59:59");
}

#[test]
fn format_seconds_largest_input() {
    // u64::MAX = 18446744073709551615 s
    // = 5124095576030431 h, 0 min, 15 s
    assert_eq!(format_seconds(u64::MAX), "5124095576030431:00:15");
}
