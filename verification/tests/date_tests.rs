use upgrade_helper::date::{
    add_days, days_from_civil, days_in_month, is_leap_year, next_day, weekday_of, CivilDate,
};

fn date(year: i64, month: u8, day: u8) -> CivilDate {
    CivilDate { year, month, day }
}

#[test]
fn test_days_from_civil_known_values() {
    assert_eq!(days_from_civil(&date(1970, 1, 1)), 0);
    assert_eq!(days_from_civil(&date(1970, 1, 2)), 1);
    assert_eq!(days_from_civil(&date(1969, 12, 31)), -1);
    assert_eq!(days_from_civil(&date(2000, 3, 1)), 11017);
    assert_eq!(days_from_civil(&date(2023, 10, 23)), 19653);
}

#[test]
fn test_weekday_known_dates() {
    // 1970-01-01 was a Thursday; 2023-10-23 a Monday
    assert_eq!(weekday_of(days_from_civil(&date(1970, 1, 1))), 3);
    assert_eq!(weekday_of(days_from_civil(&date(2023, 10, 23))), 0);
    assert_eq!(weekday_of(days_from_civil(&date(2023, 10, 28))), 5);
    assert_eq!(weekday_of(days_from_civil(&date(2023, 10, 29))), 6);
}

#[test]
fn test_is_leap_year() {
    assert!(is_leap_year(2024));
    assert!(is_leap_year(2000));
    assert!(!is_leap_year(1900));
    assert!(!is_leap_year(2023));
}

#[test]
fn test_days_in_month() {
    assert_eq!(days_in_month(2024, 2), 29);
    assert_eq!(days_in_month(2023, 2), 28);
    assert_eq!(days_in_month(2023, 4), 30);
    assert_eq!(days_in_month(2023, 12), 31);
}

#[test]
fn test_next_day_rollovers() {
    assert_eq!(next_day(&date(2023, 10, 23)), date(2023, 10, 24));
    assert_eq!(next_day(&date(2023, 10, 31)), date(2023, 11, 1));
    assert_eq!(next_day(&date(2023, 12, 31)), date(2024, 1, 1));
    assert_eq!(next_day(&date(2024, 2, 28)), date(2024, 2, 29));
    assert_eq!(next_day(&date(2024, 2, 29)), date(2024, 3, 1));
    assert_eq!(next_day(&date(2023, 2, 28)), date(2023, 3, 1));
}

#[test]
fn test_add_days() {
    assert_eq!(add_days(&date(2023, 10, 23), 0), date(2023, 10, 23));
    assert_eq!(add_days(&date(2023, 10, 23), 7), date(2023, 10, 30));
    assert_eq!(add_days(&date(2023, 12, 30), 400), date(2025, 2, 2));
}
