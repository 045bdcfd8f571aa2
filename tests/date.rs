use podcatcher::date::{iso_date_string, Date};

#[test]
fn dates_exist_only_when_valid() {
    assert!(Date::from_ymd_opt(2015, 3, 14).is_some());
    assert!(Date::from_ymd_opt(2015, 0, 14).is_none());
    assert!(Date::from_ymd_opt(2015, 2, 29).is_none());
    assert!(Date::from_ymd_opt(2000, 2, 29).is_some());
    assert!(Date::from_ymd_opt(1900, 2, 29).is_none());
    assert!(Date::from_ymd_opt(-4, 2, 29).is_some());
    assert!(Date::from_ymd_opt(2023, 4, 31).is_none());
    assert!(Date::from_ymd_opt(400000, 1, 1).is_none());
    assert!(Date::from_ymd_opt(-400000, 1, 1).is_none());
}

#[test]
fn iso_dates() {
    let d = |y, m, dd| Date::from_ymd_opt(y, m, dd).unwrap();
    assert_eq!(iso_date_string(&d(2021, 2, 21)), "2021-02-21");
    assert_eq!(iso_date_string(&d(5, 11, 3)), "0005-11-03");
    assert_eq!(iso_date_string(&d(-5, 1, 9)), "-0005-01-09");
    assert_eq!(iso_date_string(&d(12345, 12, 31)), "+12345-12-31");
}

#[test]
fn date_order() {
    let d = |y, m, dd| Date::from_ymd_opt(y, m, dd).unwrap();
    assert!(d(2022, 5, 31).is_before(&d(2022, 6, 1)));
    assert!(!d(2022, 6, 1).is_before(&d(2022, 6, 1)));
    assert!(d(2021, 12, 31).is_before(&d(2022, 1, 1)));
    assert!(!d(2023, 1, 1).is_before(&d(2022, 12, 31)));
}

#[test]
fn iso_date_of_the_smallest_year() {
    let d = Date { year: i32::MIN, month: 1, day: 1 };
    assert_eq!(iso_date_string(&d), "-2147483648-01-01");
}
