use photo_sorter::calendar::{CivilReading, Timestamp, LEAP_NANOS, MAX_YEAR, MIN_YEAR};
use photo_sorter::paths::add_trailing_slash;

fn at(year: i32, month: u32, day: u32, hour: u32, minute: u32, second: u32) -> Timestamp {
    Timestamp::new(year, month, day, hour, minute, second).unwrap()
}

#[test]
fn trailing_slash_is_added_once() {
    assert_eq!(add_trailing_slash("photos".to_string()), "photos/");
    assert_eq!(add_trailing_slash("/srv/photos".to_string()), "/srv/photos/");
}

#[test]
fn trailing_slash_is_kept() {
    assert_eq!(add_trailing_slash("photos/".to_string()), "photos/");
    assert_eq!(add_trailing_slash("/".to_string()), "/");
    assert_eq!(add_trailing_slash("photos//".to_string()), "photos//");
}

#[test]
fn trailing_slash_on_empty_and_foreign_text() {
    assert_eq!(add_trailing_slash(String::new()), "/");
    assert_eq!(add_trailing_slash("été".to_string()), "été/");
    assert_eq!(add_trailing_slash("été/".to_string()), "été/");
}

#[test]
fn new_takes_days_of_the_calendar() {
    let made = Timestamp::new(2023, 5, 2, 14, 3, 11).unwrap();
    assert_eq!(
        (made.year(), made.month(), made.day(), made.hour(), made.minute(), made.second()),
        (2023, 5, 2, 14, 3, 11)
    );
    assert!(Timestamp::new(2024, 2, 29, 0, 0, 0).is_some());
    assert!(Timestamp::new(2000, 2, 29, 0, 0, 0).is_some());
    assert!(Timestamp::new(0, 2, 29, 0, 0, 0).is_some());
    assert!(Timestamp::new(-4, 2, 29, 0, 0, 0).is_some());
    assert!(Timestamp::new(2023, 12, 31, 23, 59, 60).is_some());
    assert!(Timestamp::new(MIN_YEAR, 1, 1, 0, 0, 0).is_some());
    assert!(Timestamp::new(MAX_YEAR, 12, 31, 23, 59, 59).is_some());
}

#[test]
fn new_refuses_what_the_calendar_lacks() {
    assert_eq!(Timestamp::new(2023, 2, 29, 0, 0, 0), None);
    assert_eq!(Timestamp::new(1900, 2, 29, 0, 0, 0), None);
    assert_eq!(Timestamp::new(-1, 2, 29, 0, 0, 0), None);
    assert_eq!(Timestamp::new(2023, 4, 31, 0, 0, 0), None);
    assert_eq!(Timestamp::new(2023, 0, 1, 0, 0, 0), None);
    assert_eq!(Timestamp::new(2023, 13, 1, 0, 0, 0), None);
    assert_eq!(Timestamp::new(2023, 1, 0, 0, 0, 0), None);
    assert_eq!(Timestamp::new(2023, 1, 32, 0, 0, 0), None);
    assert_eq!(Timestamp::new(2023, 1, 1, 24, 0, 0), None);
    assert_eq!(Timestamp::new(2023, 1, 1, 0, 60, 0), None);
    assert_eq!(Timestamp::new(2023, 1, 1, 0, 0, 61), None);
    assert_eq!(Timestamp::new(MIN_YEAR - 1, 1, 1, 0, 0, 0), None);
    assert_eq!(Timestamp::new(MAX_YEAR + 1, 1, 1, 0, 0, 0), None);
    assert_eq!(Timestamp::new(i32::MIN, 1, 1, 0, 0, 0), None);
    assert_eq!(Timestamp::new(i32::MAX, 1, 1, 0, 0, 0), None);
}

#[test]
fn times_are_equal_when_their_fields_are() {
    assert_eq!(at(2023, 5, 2, 14, 3, 11), at(2023, 5, 2, 14, 3, 11));
    assert_ne!(at(2023, 5, 2, 14, 3, 11), at(2023, 5, 2, 14, 3, 12));
    assert_ne!(at(2023, 5, 2, 14, 3, 11), at(2024, 5, 2, 14, 3, 11));
}

fn reading(
    year: i32,
    month: u32,
    day: u32,
    hour: u32,
    minute: u32,
    second: u32,
    nanosecond: u32,
) -> CivilReading {
    CivilReading { year, month, day, hour, minute, second, nanosecond }
}

#[test]
fn readings_are_tested_for_validity() {
    assert!(reading(2015, 7, 1, 8, 59, 58, 999_999_999).is_valid());
    assert!(reading(2015, 7, 1, 8, 59, 59, LEAP_NANOS).is_valid());
    assert!(reading(2015, 7, 1, 8, 59, 59, 2 * LEAP_NANOS - 1).is_valid());
    assert!(reading(2024, 2, 29, 0, 0, 0, 0).is_valid());
    assert!(!reading(2015, 7, 1, 8, 59, 58, LEAP_NANOS).is_valid());
    assert!(!reading(2015, 7, 1, 8, 59, 59, 2 * LEAP_NANOS).is_valid());
    assert!(!reading(2015, 7, 1, 8, 59, 60, 0).is_valid());
    assert!(!reading(2015, 7, 1, 8, 60, 0, 0).is_valid());
    assert!(!reading(2015, 7, 1, 24, 0, 0, 0).is_valid());
    assert!(!reading(2015, 2, 29, 0, 0, 0, 0).is_valid());
    assert!(!reading(2015, 0, 1, 0, 0, 0, 0).is_valid());
    assert!(!reading(MAX_YEAR + 1, 1, 1, 0, 0, 0, 0).is_valid());
    assert!(!reading(MIN_YEAR - 1, 1, 1, 0, 0, 0, 0).is_valid());
}

#[test]
fn a_reading_that_is_none_gives_no_time() {
    assert_eq!(Timestamp::from_reading(reading(2015, 2, 29, 0, 0, 0, 0)), None);
    assert_eq!(Timestamp::from_reading(reading(2015, 7, 1, 8, 59, 58, LEAP_NANOS)), None);
    assert_eq!(Timestamp::from_reading(reading(i32::MAX, 12, 31, 23, 59, 59, 0)), None);
}

#[test]
fn a_reading_loses_its_fraction() {
    let reading = CivilReading {
        year: 2015,
        month: 7,
        day: 1,
        hour: 8,
        minute: 59,
        second: 58,
        nanosecond: 999_999_999,
    };
    assert_eq!(Timestamp::from_reading(reading), Some(at(2015, 7, 1, 8, 59, 58)));
}

#[test]
fn a_leap_reading_is_second_sixty() {
    let reading = CivilReading {
        year: 2015,
        month: 7,
        day: 1,
        hour: 8,
        minute: 59,
        second: 59,
        nanosecond: LEAP_NANOS + 123,
    };
    assert_eq!(Timestamp::from_reading(reading), Some(at(2015, 7, 1, 8, 59, 60)));
}

#[test]
fn a_time_reads_at_the_start_of_its_second() {
    assert_eq!(
        at(2015, 7, 1, 8, 59, 58).reading(),
        CivilReading { year: 2015, month: 7, day: 1, hour: 8, minute: 59, second: 58, nanosecond: 0 }
    );
    assert_eq!(
        at(2015, 7, 1, 8, 59, 60).reading(),
        CivilReading {
            year: 2015,
            month: 7,
            day: 1,
            hour: 8,
            minute: 59,
            second: 59,
            nanosecond: LEAP_NANOS
        }
    );
    let leap = at(2016, 12, 31, 23, 59, 60);
    assert_eq!(Timestamp::from_reading(leap.reading()), Some(leap));
}

#[test]
fn unix_counts_are_read_in_utc() {
    assert_eq!(Timestamp::from_unix(0, 0), Some(at(1970, 1, 1, 0, 0, 0)));
    assert_eq!(Timestamp::from_unix(1_431_648_000, 0), Some(at(2015, 5, 15, 0, 0, 0)));
    assert_eq!(Timestamp::from_unix(1_683_036_191, 999_999_999), Some(at(2023, 5, 2, 14, 3, 11)));
    assert_eq!(Timestamp::from_unix(-1, 0), Some(at(1969, 12, 31, 23, 59, 59)));
    assert_eq!(Timestamp::from_unix(951_782_400, 0), Some(at(2000, 2, 29, 0, 0, 0)));
}

#[test]
fn unix_counts_may_hold_a_leap_second() {
    assert_eq!(Timestamp::from_unix(59, LEAP_NANOS), Some(at(1970, 1, 1, 0, 0, 60)));
    assert_eq!(Timestamp::from_unix(58, LEAP_NANOS), None);
}

#[test]
fn unix_counts_out_of_reach_give_nothing() {
    assert_eq!(Timestamp::from_unix(i64::MAX, 0), None);
    assert_eq!(Timestamp::from_unix(i64::MIN, 0), None);
    assert_eq!(Timestamp::from_unix(0, 2 * LEAP_NANOS), None);
    assert_eq!(Timestamp::from_unix(0, u32::MAX), None);
}

#[test]
fn stamp_of_an_afternoon() {
    assert_eq!(at(2023, 5, 2, 14, 3, 11).stamp(), "2023/20230502/2023-05-02_140311.");
}

#[test]
fn stamp_pads_every_field() {
    assert_eq!(at(2021, 1, 5, 8, 30, 0).stamp(), "2021/20210105/2021-01-05_083000.");
    assert_eq!(at(1, 2, 3, 4, 5, 6).stamp(), "0001/00010203/0001-02-03_040506.");
    assert_eq!(at(0, 1, 1, 0, 0, 0).stamp(), "0000/00000101/0000-01-01_000000.");
    assert_eq!(at(9999, 12, 31, 23, 59, 59).stamp(), "9999/99991231/9999-12-31_235959.");
}

#[test]
fn stamp_signs_years_out_of_four_digits() {
    assert_eq!(at(10000, 1, 1, 0, 0, 0).stamp(), "+10000/+100000101/+10000-01-01_000000.");
    assert_eq!(at(-1, 1, 1, 0, 0, 0).stamp(), "-0001/-00010101/-0001-01-01_000000.");
    assert_eq!(at(-12345, 6, 7, 8, 9, 10).stamp(), "-12345/-123450607/-12345-06-07_080910.");
    assert_eq!(
        at(MAX_YEAR, 12, 31, 23, 59, 59).stamp(),
        "+262142/+2621421231/+262142-12-31_235959."
    );
    assert_eq!(at(MIN_YEAR, 1, 1, 0, 0, 0).stamp(), "-262143/-2621430101/-262143-01-01_000000.");
}

#[test]
fn stamp_shows_a_leap_second() {
    assert_eq!(at(2016, 12, 31, 23, 59, 60).stamp(), "2016/20161231/2016-12-31_235960.");
}
