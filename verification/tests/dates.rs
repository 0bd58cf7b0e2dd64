use smart_erp::date::Date;

#[test]
fn dates_of_the_calendar_are_accepted() {
    let date = Date::from_ymd(2024, 2, 29).unwrap();
    assert_eq!(date.year(), 2024);
    assert_eq!(date.month(), 2);
    assert_eq!(date.day(), 29);
    assert_eq!(Date::from_ymd(1970, 1, 1).unwrap().number(), 719_163);
    assert_eq!(Date::from_ymd(1, 1, 1).unwrap().number(), 1);
}

#[test]
fn days_that_do_not_exist_are_refused() {
    assert!(Date::from_ymd(2023, 2, 29).is_none());
    assert!(Date::from_ymd(2023, 4, 31).is_none());
    assert!(Date::from_ymd(2023, 0, 1).is_none());
    assert!(Date::from_ymd(2023, 13, 1).is_none());
    assert!(Date::from_ymd(2023, 1, 0).is_none());
    assert!(Date::from_ymd(400_000, 1, 1).is_none());
}

#[test]
fn days_between_dates_are_counted() {
    let due = Date::from_ymd(2024, 1, 31).unwrap();
    let today = Date::from_ymd(2024, 3, 16).unwrap();
    assert_eq!(today.days_since(&due), 45);
    assert_eq!(due.days_since(&today), -45);
    assert_eq!(today.days_since(&today), 0);
    let new_year = Date::from_ymd(2025, 1, 1).unwrap();
    assert_eq!(new_year.days_since(&Date::from_ymd(2024, 1, 1).unwrap()), 366);
}
