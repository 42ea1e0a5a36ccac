use library_service::date::{iso_text, one_month_later, short_text, Date};
use library_service::text::{signed_text, trim_end_matching, unsigned_text};

fn date(y: i32, m: u32, d: u32) -> Date {
    Date::from_ymd(y, m, d).expect("a valid date")
}

#[test]
fn unsigned_numbers_are_written_in_decimal() {
    assert_eq!(unsigned_text(0), "0");
    assert_eq!(unsigned_text(7), "7");
    assert_eq!(unsigned_text(10), "10");
    assert_eq!(unsigned_text(1234567), "1234567");
    assert_eq!(unsigned_text(u64::MAX), "18446744073709551615");
}

#[test]
fn signed_numbers_carry_their_sign() {
    assert_eq!(signed_text(0), "0");
    assert_eq!(signed_text(42), "42");
    assert_eq!(signed_text(-42), "-42");
    assert_eq!(signed_text(i32::MIN), "-2147483648");
    assert_eq!(signed_text(i32::MAX), "2147483647");
}

#[test]
fn only_trailing_commas_are_trimmed() {
    assert_eq!(trim_end_matching("a = ?,b = ?,", ','), "a = ?,b = ?");
    assert_eq!(trim_end_matching("x,,,", ','), "x");
    assert_eq!(trim_end_matching(",,", ','), "");
    assert_eq!(trim_end_matching("", ','), "");
    assert_eq!(trim_end_matching("no comma", ','), "no comma");
}

#[test]
fn dates_are_checked_when_made() {
    assert!(Date::from_ymd(2024, 2, 29).is_some());
    assert!(Date::from_ymd(2023, 2, 29).is_none());
    assert!(Date::from_ymd(1900, 2, 29).is_none());
    assert!(Date::from_ymd(2000, 2, 29).is_some());
    assert!(Date::from_ymd(2024, 4, 31).is_none());
    assert!(Date::from_ymd(2024, 13, 1).is_none());
    assert!(Date::from_ymd(2024, 0, 1).is_none());
    assert!(Date::from_ymd(2024, 1, 0).is_none());
    assert!(Date::from_ymd(262142, 12, 31).is_some());
    assert!(Date::from_ymd(262143, 1, 1).is_none());
    assert!(Date::from_ymd(-262143, 1, 1).is_some());
    assert!(Date::from_ymd(-262144, 12, 31).is_none());
    let d = date(2024, 3, 5);
    assert_eq!((d.year, d.month, d.day), (2024, 3, 5));
}

#[test]
fn one_month_later_keeps_the_day() {
    assert_eq!(one_month_later(&date(2024, 3, 5)), Some(date(2024, 4, 5)));
    assert_eq!(one_month_later(&date(2024, 12, 15)), Some(date(2025, 1, 15)));
}

#[test]
fn one_month_later_takes_the_last_day_of_a_shorter_month() {
    assert_eq!(one_month_later(&date(2024, 1, 31)), Some(date(2024, 2, 29)));
    assert_eq!(one_month_later(&date(2023, 1, 31)), Some(date(2023, 2, 28)));
    assert_eq!(one_month_later(&date(2024, 3, 31)), Some(date(2024, 4, 30)));
}

#[test]
fn one_month_later_stops_at_the_end_of_the_range() {
    assert_eq!(one_month_later(&date(262142, 12, 1)), None);
    assert_eq!(one_month_later(&date(262142, 11, 30)), Some(date(262142, 12, 30)));
}

#[test]
fn dates_are_written_with_the_full_year() {
    assert_eq!(iso_text(&date(2024, 3, 5)), "2024-03-05");
    assert_eq!(iso_text(&date(1999, 12, 31)), "1999-12-31");
    assert_eq!(iso_text(&date(5, 1, 2)), "0005-01-02");
    assert_eq!(iso_text(&date(12345, 6, 7)), "+12345-06-07");
    assert_eq!(iso_text(&date(-5, 6, 7)), "-0005-06-07");
}

#[test]
fn dates_are_written_with_a_two_digit_year() {
    assert_eq!(short_text(&date(2024, 3, 5)), "24-03-05");
    assert_eq!(short_text(&date(2005, 11, 20)), "05-11-20");
    assert_eq!(short_text(&date(-1, 1, 1)), "99-01-01");
}
