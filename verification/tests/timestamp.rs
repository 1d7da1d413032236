use chrono::TimeZone;
use scout_schedule::pattern::ScheduleFields;
use scout_schedule::timestamp::{end_time, start_time, EVENT_SECONDS, ZONE_OFFSET_SECONDS};

fn fields(year: u32, month: u32, day: u32, hour: u32, minute: u32) -> ScheduleFields {
    ScheduleFields { year, month, day, hour, minute }
}

#[test]
fn the_clock_is_nine_hours_east_and_events_last_an_hour() {
    assert_eq!(ZONE_OFFSET_SECONDS, 9 * 60 * 60);
    assert_eq!(EVENT_SECONDS, 60 * 60);
}

#[test]
fn start_time_is_read_on_the_listings_clock() {
    assert_eq!(start_time(&fields(2024, 3, 15, 18, 30)), Some(1710495000));
    assert_eq!(start_time(&fields(2024, 3, 16, 10, 0)), Some(1710550800));
    assert_eq!(start_time(&fields(1970, 1, 1, 9, 0)), Some(0));
    assert_eq!(start_time(&fields(1970, 1, 1, 0, 0)), Some(-32400));
}

#[test]
fn start_time_agrees_with_chrono() {
    let zone = chrono::FixedOffset::east_opt(9 * 3600).unwrap();
    let expected = zone.with_ymd_and_hms(2024, 12, 31, 23, 30, 0).unwrap();
    assert_eq!(start_time(&fields(2024, 12, 31, 23, 30)), Some(expected.timestamp()));
    assert_eq!(expected.to_rfc3339(), "2024-12-31T23:30:00+09:00");
}

#[test]
fn start_time_knows_leap_years() {
    assert!(start_time(&fields(2024, 2, 29, 12, 0)).is_some());
    assert_eq!(start_time(&fields(2023, 2, 29, 12, 0)), None);
    assert_eq!(start_time(&fields(2024, 2, 30, 12, 0)), None);
}

#[test]
fn fields_that_no_calendar_knows_have_no_start() {
    assert_eq!(start_time(&fields(2024, 13, 15, 18, 30)), None);
    assert_eq!(start_time(&fields(2024, 0, 15, 18, 30)), None);
    assert_eq!(start_time(&fields(2024, 3, 32, 18, 30)), None);
    assert_eq!(start_time(&fields(2024, 3, 0, 18, 30)), None);
    assert_eq!(start_time(&fields(2024, 3, 15, 25, 30)), None);
    assert_eq!(start_time(&fields(2024, 3, 15, 24, 0)), None);
    assert_eq!(start_time(&fields(2024, 3, 15, 18, 60)), None);
    assert_eq!(start_time(&fields(400000, 3, 15, 18, 30)), None);
    assert_eq!(start_time(&fields(u32::MAX, 3, 15, 18, 30)), None);
}

#[test]
fn end_time_is_one_hour_later() {
    assert_eq!(end_time(1710495000), Some(1710498600));
    assert_eq!(end_time(0), Some(3600));
    assert_eq!(end_time(-3600), Some(0));
    assert_eq!(end_time(i64::MAX - 3600), Some(i64::MAX));
    assert_eq!(end_time(i64::MAX - 3599), None);
    assert_eq!(end_time(i64::MAX), None);
}
