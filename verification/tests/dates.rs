use memo::date::{parse_date, Date};

#[test]
fn parses_a_plain_date() {
    let d = parse_date("2022-01-01").unwrap();
    assert_eq!(d, Date { year: 2022, month: 1, day: 1 });
}

#[test]
fn parses_a_leap_day() {
    assert_eq!(parse_date("2024-02-29"), Some(Date { year: 2024, month: 2, day: 29 }));
}

#[test]
fn rejects_a_leap_day_in_a_common_year() {
    assert_eq!(parse_date("2023-02-29"), None);
}

#[test]
fn rejects_malformed_text() {
    assert_eq!(parse_date(""), None);
    assert_eq!(parse_date("2024-13-01"), None);
    assert_eq!(parse_date("2024-00-10"), None);
    assert_eq!(parse_date("2024-04-31"), None);
    assert_eq!(parse_date("2024-1-1"), None);
    assert_eq!(parse_date("2024/01/01"), None);
    assert_eq!(parse_date("abcd-ef-gh"), None);
    assert_eq!(parse_date("2024-01-01 "), None);
}

#[test]
fn from_ymd_checks_the_calendar() {
    assert!(Date::from_ymd(2024, 2, 29).is_some());
    assert!(Date::from_ymd(2023, 2, 29).is_none());
    assert!(Date::from_ymd(2024, 0, 5).is_none());
    assert!(Date::from_ymd(2024, 5, 0).is_none());
}

#[test]
fn day_numbers_count_single_days() {
    let feb28 = Date::from_ymd(2024, 2, 28).unwrap().day_number();
    let feb29 = Date::from_ymd(2024, 2, 29).unwrap().day_number();
    let mar1 = Date::from_ymd(2024, 3, 1).unwrap().day_number();
    assert_eq!(feb29 - feb28, 1);
    assert_eq!(mar1 - feb29, 1);
    let dec31 = Date::from_ymd(2023, 12, 31).unwrap().day_number();
    let jan1 = Date::from_ymd(2024, 1, 1).unwrap().day_number();
    assert_eq!(jan1 - dec31, 1);
}

#[test]
fn day_numbers_match_known_distances() {
    // 1970-01-01 to 2000-01-01 spans 10957 days.
    let epoch = Date::from_ymd(1970, 1, 1).unwrap().day_number();
    let y2k = Date::from_ymd(2000, 1, 1).unwrap().day_number();
    assert_eq!(y2k - epoch, 10957);
    // 719528 days from 0000-01-01 to 1970-01-01, year 0 counted as leap.
    assert_eq!(epoch, 719528);
}
