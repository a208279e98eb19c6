use std::time::{Duration, SystemTime};

use epoch_time::{Day, Month, PostEpochTime};

#[test]
fn smoke_test() {
    let timestamp = SystemTime::UNIX_EPOCH + Duration::new(1580610340, 123);
    let pet = PostEpochTime::from(&timestamp).unwrap();
    assert_eq!(pet.display_string(), "Sun, 2 Feb 2020 02:25:40".to_string());
}

#[test]
fn epoch_boundary() {
    let pet = PostEpochTime::from_parts(0, 0);
    assert_eq!(pet.year(), 1970);
    assert_eq!(pet.month(), Month::January);
    assert_eq!(pet.day_of_month(), 1);
    assert_eq!(pet.day_of_year(), 1);
    assert_eq!(pet.day_of_week(), Day::Thursday);
    assert_eq!(pet.hour(), 0);
    assert_eq!(pet.minute(), 0);
    assert_eq!(pet.second(), 0);
    assert_eq!(pet.seconds_since_epoch(), 0);
    assert_eq!(pet.days_since_epoch(), 0);
    assert_eq!(pet.display_string(), "Thu, 1 Jan 1970 00:00:00");
}

#[test]
fn epoch_underflow() {
    let before_epoch = SystemTime::UNIX_EPOCH - Duration::new(0, 1);
    assert!(PostEpochTime::from(&before_epoch).is_err());
}

#[test]
fn end_to_end_2020() {
    let pet = PostEpochTime::from_parts(1580610340, 123);
    assert_eq!(pet.year(), 2020);
    assert_eq!(pet.month(), Month::February);
    assert_eq!(pet.day_of_month(), 2);
    assert_eq!(pet.day_of_week(), Day::Sunday);
    assert_eq!(pet.hour(), 2);
    assert_eq!(pet.minute(), 25);
    assert_eq!(pet.second(), 40);
    assert_eq!(pet.display_string(), "Sun, 2 Feb 2020 02:25:40");
}

#[test]
fn day_boundary() {
    let last = PostEpochTime::from_parts(86399, 0);
    assert_eq!(last.year(), 1970);
    assert_eq!(last.month(), Month::January);
    assert_eq!(last.day_of_month(), 1);
    assert_eq!(last.day_of_week(), Day::Thursday);
    assert_eq!(last.hour(), 23);
    assert_eq!(last.minute(), 59);
    assert_eq!(last.second(), 59);
    assert_eq!(last.days_since_epoch(), 0);

    let first = PostEpochTime::from_parts(86400, 0);
    assert_eq!(first.year(), 1970);
    assert_eq!(first.month(), Month::January);
    assert_eq!(first.day_of_month(), 2);
    assert_eq!(first.day_of_week(), Day::Friday);
    assert_eq!(first.hour(), 0);
    assert_eq!(first.minute(), 0);
    assert_eq!(first.second(), 0);
    assert_eq!(first.days_since_epoch(), 1);
}

#[test]
fn leap_year_day_sixty() {
    // Day-of-year 60 in leap year 2020 (18321 days after the epoch) is
    // February 29.
    let leap = PostEpochTime::from_parts(18321 * 86400, 0);
    assert_eq!(leap.year(), 2020);
    assert_eq!(leap.day_of_year(), 60);
    assert_eq!(leap.month(), Month::February);
    assert_eq!(leap.day_of_month(), 29);

    // The same day-of-year offset in non-leap year 2019 (17956 days after the
    // epoch) is March 1.
    let plain = PostEpochTime::from_parts(17956 * 86400, 0);
    assert_eq!(plain.year(), 2019);
    assert_eq!(plain.day_of_year(), 60);
    assert_eq!(plain.month(), Month::March);
    assert_eq!(plain.day_of_month(), 1);
}

#[test]
fn weekday_cycles_daily() {
    let cycle: [Day; 7] = [
        Day::Thursday,
        Day::Friday,
        Day::Saturday,
        Day::Sunday,
        Day::Monday,
        Day::Tuesday,
        Day::Wednesday,
    ];
    for k in 0..21u64 {
        let pet = PostEpochTime::from_parts(k * 86400, 0);
        assert_eq!(pet.day_of_week(), cycle[(k % 7) as usize]);
    }
}

#[test]
fn subsecond_resolutions() {
    let pet = PostEpochTime::from_parts(1, 999_999_999);
    assert_eq!(pet.seconds_since_epoch(), 1);
    assert_eq!(pet.milliseconds_since_epoch(), 1_999);
    assert_eq!(pet.microseconds_since_epoch(), 1_999_999);
    assert_eq!(pet.nanoseconds_since_epoch(), 1_999_999_999);

    let timestamp = SystemTime::UNIX_EPOCH + Duration::new(5, 123_456_789);
    let pet = PostEpochTime::from(&timestamp).unwrap();
    assert_eq!(pet.seconds_since_epoch(), 5);
    assert_eq!(pet.milliseconds_since_epoch(), 5_123);
    assert_eq!(pet.microseconds_since_epoch(), 5_123_456);
    assert_eq!(pet.nanoseconds_since_epoch(), 5_123_456_789);
}

#[test]
fn clock_fields() {
    // 1580610340 = 18294 days + 2 h 25 min 40 s.
    let pet = PostEpochTime::from_parts(1580610340, 0);
    assert_eq!(pet.days_since_epoch(), 18294);
    assert_eq!(pet.second_in_day(), 2 * 3600 + 25 * 60 + 40);
    assert_eq!(pet.second_in_hour(), 25 * 60 + 40);
}

#[test]
fn now_is_after_epoch() {
    let pet = PostEpochTime::now().unwrap();
    assert!(pet.year() >= 2020);
}

#[test]
fn december_and_year_end() {
    // 1972 is a leap year; its last day (offset 365) is December 31, a Sunday.
    let days: u64 = 365 + 365 + 365;
    let pet = PostEpochTime::from_parts(days * 86400, 0);
    assert_eq!(pet.year(), 1972);
    assert_eq!(pet.day_of_year(), 366);
    assert_eq!(pet.month(), Month::December);
    assert_eq!(pet.day_of_month(), 31);
    assert_eq!(pet.day_of_week(), Day::Sunday);
}
