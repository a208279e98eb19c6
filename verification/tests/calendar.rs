use epoch_time::{
    day_abbrev_string, day_string, days_in_month, days_in_year, index_from_month,
    month_abbrev_string, month_from_index, month_string, seconds_in_day, seconds_in_hour,
    seconds_in_minute, Day, Month,
};

const ALL_MONTHS: [Month; 12] = [
    Month::January,
    Month::February,
    Month::March,
    Month::April,
    Month::May,
    Month::June,
    Month::July,
    Month::August,
    Month::September,
    Month::October,
    Month::November,
    Month::December,
];

const ALL_DAYS: [Day; 7] = [
    Day::Sunday,
    Day::Monday,
    Day::Tuesday,
    Day::Wednesday,
    Day::Thursday,
    Day::Friday,
    Day::Saturday,
];

#[test]
fn leap_year_lengths() {
    assert_eq!(days_in_year(1970), 365);
    assert_eq!(days_in_year(1972), 366);
    assert_eq!(days_in_year(1900), 365);
    assert_eq!(days_in_year(2000), 366);
    assert_eq!(days_in_year(2019), 365);
    assert_eq!(days_in_year(2020), 366);
    assert_eq!(days_in_year(2100), 365);
    for y in 1970..2400u64 {
        let d = days_in_year(y);
        assert!(d == 365 || d == 366);
    }
}

#[test]
fn month_lengths() {
    assert_eq!(days_in_month(2020, Month::February), 29);
    assert_eq!(days_in_month(2019, Month::February), 28);
    assert_eq!(days_in_month(1900, Month::February), 28);
    assert_eq!(days_in_month(2000, Month::February), 29);
    assert_eq!(days_in_month(2021, Month::January), 31);
    assert_eq!(days_in_month(2021, Month::April), 30);
    assert_eq!(days_in_month(2021, Month::December), 31);
}

#[test]
fn month_lengths_sum_to_year_length() {
    for y in [1970, 1900, 2000, 2019, 2020, 2100] {
        let total: u64 = ALL_MONTHS.iter().map(|m| days_in_month(y, *m)).sum();
        assert_eq!(total, days_in_year(y));
    }
}

#[test]
fn month_index_round_trip() {
    for m in ALL_MONTHS {
        assert_eq!(month_from_index(index_from_month(m)), Some(m));
    }
    for n in 1..=12u64 {
        assert_eq!(index_from_month(month_from_index(n).unwrap()), n);
    }
    assert_eq!(month_from_index(0), None);
    assert_eq!(month_from_index(13), None);
    assert_eq!(month_from_index(u64::MAX), None);
}

#[test]
fn abbreviations_are_name_prefixes() {
    for d in ALL_DAYS {
        assert_eq!(day_abbrev_string(d), &day_string(d)[0..3]);
    }
    for m in ALL_MONTHS {
        assert_eq!(month_abbrev_string(m), &month_string(m)[0..3]);
    }
}

#[test]
fn names() {
    assert_eq!(day_string(Day::Wednesday), "Wednesday");
    assert_eq!(day_abbrev_string(Day::Thursday), "Thu");
    assert_eq!(month_string(Month::September), "September");
    assert_eq!(month_abbrev_string(Month::September), "Sep");
}

#[test]
fn second_unit_constants() {
    assert_eq!(seconds_in_day(), 86400);
    assert_eq!(seconds_in_hour(), 3600);
    assert_eq!(seconds_in_minute(), 60);
}
