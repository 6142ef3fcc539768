use date_picker::calendar::{Calendar, Matcher};
use date_picker::date::{join_range, leap_year, month_length, CalendarDate, Date, MAX_YEAR, MIN_YEAR};
use date_picker::element::Size;

fn day(year: i32, month: u32, day: u32) -> CalendarDate {
    CalendarDate::from_ymd(year, month, day).unwrap()
}

#[test]
fn from_ymd_keeps_year_month_and_day() {
    let date = day(2024, 3, 5);
    assert_eq!(date.year(), 2024);
    assert_eq!(date.month(), 3);
    assert_eq!(date.day(), 5);
}

#[test]
fn from_ymd_refuses_days_that_do_not_exist() {
    assert!(CalendarDate::from_ymd(2023, 2, 29).is_none());
    assert!(CalendarDate::from_ymd(2023, 4, 31).is_none());
    assert!(CalendarDate::from_ymd(2015, 0, 14).is_none());
    assert!(CalendarDate::from_ymd(2015, 13, 1).is_none());
    assert!(CalendarDate::from_ymd(2015, 1, 0).is_none());
    assert!(CalendarDate::from_ymd(2015, 1, 32).is_none());
    assert!(CalendarDate::from_ymd(400000, 1, 1).is_none());
    assert!(CalendarDate::from_ymd(-400000, 1, 1).is_none());
}

#[test]
fn from_ymd_knows_leap_years() {
    assert!(CalendarDate::from_ymd(2024, 2, 29).is_some());
    assert!(CalendarDate::from_ymd(2000, 2, 29).is_some());
    assert!(CalendarDate::from_ymd(1900, 2, 29).is_none());
    assert!(CalendarDate::from_ymd(-4, 2, 29).is_some());
    assert!(CalendarDate::from_ymd(0, 2, 29).is_some());
    assert!(CalendarDate::from_ymd(-100, 2, 29).is_none());
}

#[test]
fn from_ymd_accepts_the_first_and_the_last_year() {
    assert_eq!(MIN_YEAR, -262143);
    assert_eq!(MAX_YEAR, 262142);
    assert!(CalendarDate::from_ymd(MIN_YEAR, 1, 1).is_some());
    assert!(CalendarDate::from_ymd(MAX_YEAR, 12, 31).is_some());
    assert!(CalendarDate::from_ymd(MIN_YEAR - 1, 12, 31).is_none());
    assert!(CalendarDate::from_ymd(MAX_YEAR + 1, 1, 1).is_none());
}

#[test]
fn from_ymd_agrees_with_chrono() {
    let years = [
        -262144, -262143, -262142, -401, -400, -100, -5, -4, -1, 0, 1, 4, 100, 400, 1900, 1999,
        2000, 2023, 2024, 2100, 262141, 262142, 262143,
    ];
    for year in years {
        for month in 0..=13u32 {
            for d in 0..=32u32 {
                let ours = CalendarDate::from_ymd(year, month, d).is_some();
                let theirs = chrono::NaiveDate::from_ymd_opt(year, month, d).is_some();
                assert_eq!(ours, theirs, "{}-{}-{}", year, month, d);
            }
        }
    }
}

#[test]
fn leap_year_follows_the_gregorian_rule() {
    assert!(leap_year(2024));
    assert!(leap_year(2000));
    assert!(!leap_year(1900));
    assert!(!leap_year(2023));
    assert!(leap_year(-400));
    assert!(!leap_year(-1));
    assert!(leap_year(0));
    assert!(!leap_year(i32::MIN + 1));
    assert!(leap_year(i32::MIN));
    assert!(!leap_year(i32::MAX));
}

#[test]
fn month_length_gives_the_days_of_each_month() {
    let lengths: Vec<u32> = (1..=12u32).map(|month| month_length(2023, month)).collect();
    assert_eq!(lengths, vec![31, 28, 31, 30, 31, 30, 31, 31, 30, 31, 30, 31]);
    assert_eq!(month_length(2024, 2), 29);
}

#[test]
fn is_before_orders_by_year_then_month_then_day() {
    assert!(day(2023, 12, 31).is_before(&day(2024, 1, 1)));
    assert!(day(2024, 1, 31).is_before(&day(2024, 2, 1)));
    assert!(day(2024, 2, 1).is_before(&day(2024, 2, 2)));
    assert!(!day(2024, 2, 2).is_before(&day(2024, 2, 2)));
    assert!(!day(2024, 2, 3).is_before(&day(2024, 2, 2)));
    assert!(!day(2025, 1, 1).is_before(&day(2024, 12, 31)));
}

#[test]
fn is_some_holds_when_any_date_is_present() {
    let a = day(2024, 1, 1);
    let b = day(2024, 1, 7);
    assert!(!Date::Single(None).is_some());
    assert!(Date::Single(Some(a)).is_some());
    assert!(!Date::Range(None, None).is_some());
    assert!(Date::Range(Some(a), None).is_some());
    assert!(Date::Range(None, Some(b)).is_some());
    assert!(Date::Range(Some(a), Some(b)).is_some());
}

#[test]
fn clear_keeps_the_shape() {
    let a = day(2024, 1, 1);
    let b = day(2024, 1, 7);
    assert_eq!(Date::Single(Some(a)).clear(), Date::Single(None));
    assert_eq!(Date::Single(None).clear(), Date::Single(None));
    assert_eq!(Date::Range(Some(a), Some(b)).clear(), Date::Range(None, None));
    assert_eq!(Date::Range(None, Some(b)).clear(), Date::Range(None, None));
}

#[test]
fn format_writes_a_single_date() {
    let value = Date::Single(Some(day(2024, 3, 5)));
    assert_eq!(value.format("%d/%m/%Y"), Some("05/03/2024".to_string()));
    assert_eq!(value.format("%Y/%m/%d"), Some("2024/03/05".to_string()));
    assert_eq!(value.format("%A, %-d %B, %C%y"), Some("Tuesday, 5 March, 2024".to_string()));
    assert_eq!(value.format(""), Some(String::new()));
    assert_eq!(value.format("day"), Some("day".to_string()));
}

#[test]
fn format_agrees_with_chrono() {
    let patterns = ["%Y-%m-%d", "%e %b %Y", "%j", "%U/%W", "%G-W%V-%u", "%D", "%F", "%x", "%%"];
    for (y, m, d) in [(2024, 3, 5), (1999, 12, 31), (-44, 3, 15), (12345, 6, 7)] {
        let theirs = chrono::NaiveDate::from_ymd_opt(y, m, d).unwrap();
        for pattern in patterns {
            let ours = Date::Single(Some(day(y, m, d))).format(pattern);
            assert_eq!(ours, Some(theirs.format(pattern).to_string()), "{}", pattern);
        }
    }
}

#[test]
fn format_has_no_text_without_a_date() {
    assert_eq!(Date::Single(None).format("%Y/%m/%d"), None);
    assert_eq!(Date::Range(None, None).format("%Y/%m/%d"), None);
}

#[test]
fn format_writes_a_range_only_when_it_is_complete() {
    let a = day(2024, 1, 1);
    let b = day(2024, 1, 7);
    assert_eq!(
        Date::Range(Some(a), Some(b)).format("%Y/%m/%d"),
        Some("2024/01/01 - 2024/01/07".to_string())
    );
    assert_eq!(Date::Range(Some(a), None).format("%Y/%m/%d"), None);
    assert_eq!(Date::Range(None, Some(b)).format("%Y/%m/%d"), None);
}

#[test]
fn format_keeps_an_inverted_range_as_it_is() {
    let a = day(2024, 1, 1);
    let b = day(2024, 1, 7);
    assert_eq!(
        Date::Range(Some(b), Some(a)).format("%d.%m."),
        Some("07.01. - 01.01.".to_string())
    );
}

#[test]
fn format_has_no_text_for_a_pattern_that_a_date_cannot_fill() {
    let value = Date::Single(Some(day(2024, 3, 5)));
    assert_eq!(value.format("%H:%M"), None);
    assert_eq!(value.format("%Y %z"), None);
    assert_eq!(value.format("%Y-%"), None);
    let range = Date::Range(Some(day(2024, 3, 5)), Some(day(2024, 3, 6)));
    assert_eq!(range.format("%Y %H"), None);
}

#[test]
fn join_range_puts_the_separator_between_the_ends() {
    assert_eq!(
        join_range(Some("a".to_string()), Some("b".to_string())),
        Some("a - b".to_string())
    );
    assert_eq!(join_range(Some(String::new()), Some(String::new())), Some(" - ".to_string()));
    assert_eq!(join_range(Some("a".to_string()), None), None);
    assert_eq!(join_range(None, Some("b".to_string())), None);
    assert_eq!(join_range(None, None), None);
}

#[test]
fn matcher_before_after_and_between() {
    let limit = day(2024, 6, 15);
    assert!(Matcher::Before(limit).is_match(&day(2024, 6, 14)));
    assert!(!Matcher::Before(limit).is_match(&limit));
    assert!(Matcher::After(limit).is_match(&day(2024, 6, 16)));
    assert!(!Matcher::After(limit).is_match(&limit));
    let between = Matcher::Between(day(2024, 6, 10), day(2024, 6, 20));
    assert!(between.is_match(&day(2024, 6, 10)));
    assert!(between.is_match(&limit));
    assert!(between.is_match(&day(2024, 6, 20)));
    assert!(!between.is_match(&day(2024, 6, 9)));
    assert!(!between.is_match(&day(2024, 6, 21)));
}

#[test]
fn calendar_starts_empty_and_takes_what_is_set() {
    let mut calendar = Calendar::new();
    assert_eq!(calendar.date, Date::Single(None));
    assert_eq!(calendar.disabled, None);
    assert_eq!(calendar.size, Size::Medium);
    assert_eq!(calendar.number_of_months, 1);
    assert!(!calendar.is_disabled(&day(2024, 1, 1)));
    calendar.set_date(Date::Single(Some(day(2024, 1, 1))));
    calendar.set_disabled(Matcher::Before(day(2024, 1, 2)));
    calendar.set_size(Size::Large);
    calendar.set_number_of_months(3);
    assert_eq!(calendar.date, Date::Single(Some(day(2024, 1, 1))));
    assert_eq!(calendar.disabled, Some(Matcher::Before(day(2024, 1, 2))));
    assert_eq!(calendar.size, Size::Large);
    assert_eq!(calendar.number_of_months, 3);
    assert!(calendar.is_disabled(&day(2024, 1, 1)));
    assert!(!calendar.is_disabled(&day(2024, 1, 2)));
}
