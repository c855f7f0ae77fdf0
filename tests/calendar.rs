use dnevest::calendar::{Clock, Date};
use dnevest::newspaper::NewspaperError;

fn assert_err(r: Result<Date, NewspaperError>, msg: &str) {
    assert!(r.expect_err("expected an error").message().contains(msg))
}

#[test]
fn valid_date() {
    let res = Date::try_new("29-02-2024").unwrap();
    let expected = Date::new(29, 02, 2024).unwrap();

    assert_eq!(res, expected);
}

#[test]
fn invalid_date() {
    let msg = "Error parsing date";

    let invalid_date = Date::try_new("29-02-2026");
    assert_err(invalid_date, msg);

    let not_existing_month = Date::try_new("1-13-2025");
    assert_err(not_existing_month, msg);

    let dd_mm_yyyy = Date::try_new("13/06/2022");
    assert_err(dd_mm_yyyy, msg);

    let yyyy_mm_dd = Date::try_new("2023_12_24");
    assert_err(yyyy_mm_dd, msg);
}

#[test]
fn test_various_days_of_week() {
    let date1 = Date::try_new("01-01-2023").unwrap();
    assert_eq!(date1.weekday_index(), 6);

    let date2 = Date::try_new("04-07-2023").unwrap();
    assert_eq!(date2.weekday_index(), 1);

    let date3 = Date::try_new("25-12-2023").unwrap();
    assert_eq!(date3.weekday_index(), 0);
}

#[test]
fn date_deserialize() {
    let date = Date::new(29, 6, 2024).unwrap();
    let parsed = Date::try_new("29-06-2024").unwrap();
    assert_eq!(date, parsed);
    assert_eq!((parsed.day(), parsed.month(), parsed.year()), (29, 6, 2024));
}

#[test]
fn weekdays_of_known_dates() {
    // 1970-01-01 was a Thursday, 1987-07-05 a Sunday, 1990-07-14 a Saturday,
    // 2000-02-29 a Tuesday, 1600-03-01 a Wednesday
    assert_eq!(Date::new(1, 1, 1970).unwrap().weekday_index(), 3);
    assert_eq!(Date::new(5, 7, 1987).unwrap().weekday_index(), 6);
    assert_eq!(Date::new(14, 7, 1990).unwrap().weekday_index(), 5);
    assert_eq!(Date::new(29, 2, 2000).unwrap().weekday_index(), 1);
    assert_eq!(Date::new(1, 3, 1600).unwrap().weekday_index(), 2);
}

#[test]
fn calendar_rejects_missing_days() {
    assert!(Date::new(29, 2, 1900).is_none());
    assert!(Date::new(29, 2, 2000).is_some());
    assert!(Date::new(31, 4, 2024).is_none());
    assert!(Date::new(0, 1, 2024).is_none());
    assert!(Date::new(1, 13, 2024).is_none());
    assert!(Date::new(31, 12, 65535).is_some());
}

#[test]
fn clock_year_of_timestamps() {
    assert_eq!(Clock { timestamp: 0 }.year(), 1970);
    assert_eq!(Clock { timestamp: 1732880395 }.year(), 1970);
    assert_eq!(Clock { timestamp: 1_732_880_395_000 }.year(), 2024);
    // 2000-01-01 00:00 UTC, and one millisecond before it
    assert_eq!(Clock { timestamp: 946_684_800_000 }.year(), 2000);
    assert_eq!(Clock { timestamp: 946_684_799_999 }.year(), 1999);
    assert_eq!(Clock { timestamp: u64::MAX }.year(), u16::MAX);
}
