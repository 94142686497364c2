use stream_downloader::clock::LocalTime;

fn time(year: i16, month: i8, day: i8, hour: i8, minute: i8, second: i8) -> LocalTime {
    LocalTime { year, month, day, hour, minute, second }
}

#[test]
fn stamps() {
    let t = time(2024, 7, 14, 23, 5, 9);
    assert!(t.is_valid());
    assert_eq!(t.stamp(), "23_05_09-07_14_2024");
    assert_eq!(time(1, 1, 1, 0, 0, 0).stamp(), "00_00_00-01_01_0001");
    assert_eq!(time(9999, 12, 31, 23, 59, 59).stamp(), "23_59_59-12_31_9999");
    assert_eq!(time(0, 2, 29, 12, 30, 45).stamp(), "12_30_45-02_29_0000");
    assert_eq!(time(987, 10, 10, 10, 10, 10).stamp(), "10_10_10-10_10_0987");
}

#[test]
fn stamps_of_years_before_zero() {
    assert_eq!(time(-1, 1, 2, 3, 4, 5).stamp(), "03_04_05-01_02_-001");
    assert_eq!(time(-999, 1, 2, 3, 4, 5).stamp(), "03_04_05-01_02_-999");
    assert_eq!(time(-1000, 1, 2, 3, 4, 5).stamp(), "03_04_05-01_02_-1000");
    assert_eq!(time(-9999, 1, 2, 3, 4, 5).stamp(), "03_04_05-01_02_-9999");
}

#[test]
fn different_times_have_different_stamps() {
    let t = time(2024, 7, 14, 23, 5, 9);
    let others = [
        time(2025, 7, 14, 23, 5, 9),
        time(2024, 8, 14, 23, 5, 9),
        time(2024, 7, 15, 23, 5, 9),
        time(2024, 7, 14, 22, 5, 9),
        time(2024, 7, 14, 23, 9, 5),
        time(2024, 7, 14, 23, 5, 10),
    ];
    for other in others {
        assert_ne!(t.stamp(), other.stamp());
    }
}

#[test]
fn days_of_the_calendar() {
    assert!(time(2024, 2, 29, 0, 0, 0).is_valid());
    assert!(!time(2023, 2, 29, 0, 0, 0).is_valid());
    assert!(time(2000, 2, 29, 0, 0, 0).is_valid());
    assert!(!time(1900, 2, 29, 0, 0, 0).is_valid());
    assert!(time(-4, 2, 29, 0, 0, 0).is_valid());
    assert!(!time(-1, 2, 29, 0, 0, 0).is_valid());
    assert!(!time(2024, 4, 31, 0, 0, 0).is_valid());
    assert!(time(2024, 12, 31, 0, 0, 0).is_valid());
    assert!(!time(2024, 13, 1, 0, 0, 0).is_valid());
    assert!(!time(2024, 0, 1, 0, 0, 0).is_valid());
    assert!(!time(2024, 1, 0, 0, 0, 0).is_valid());
    assert!(!time(10000, 1, 1, 0, 0, 0).is_valid());
    assert!(!time(2024, 1, 1, 24, 0, 0).is_valid());
    assert!(!time(2024, 1, 1, 0, 60, 0).is_valid());
    assert!(!time(2024, 1, 1, 0, 0, 60).is_valid());
    assert!(!time(2024, 1, 1, -1, 0, 0).is_valid());
}

#[test]
fn every_day_that_is_valid_here_is_one_of_the_calendar() {
    for year in [-4, 0, 1900, 2000, 2023, 2024] {
        for month in 1..=12 {
            for day in 1..=31 {
                let known = jiff::civil::Date::new(year, month, day).is_ok();
                assert_eq!(time(year, month, day, 0, 0, 0).is_valid(), known);
            }
        }
    }
}

#[test]
fn now_is_a_valid_time() {
    let before = jiff::Timestamp::now();
    let now = LocalTime::now();
    let after = jiff::Timestamp::now();
    assert!(now.is_valid());
    assert_eq!(now.stamp().len(), 19);
    let zone = jiff::tz::TimeZone::system();
    let first = before.to_zoned(zone.clone()).strftime("%H_%M_%S-%m_%d_%Y").to_string();
    let last = after.to_zoned(zone).strftime("%H_%M_%S-%m_%d_%Y").to_string();
    assert!(now.stamp() == first || now.stamp() == last || first != last);
}
