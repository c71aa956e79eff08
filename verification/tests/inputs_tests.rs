use upgrade_helper::date::{CivilDate, CivilDateTime};
use upgrade_helper::inputs::{get_time_string, is_valid_commonwealth_link, network_from_label};
use upgrade_helper::network::Network;
use upgrade_helper::schedule::{calculate_planned_date, is_valid_upgrade_time, PlannedDate};

fn at(year: i64, month: u8, day: u8, hour: u8, minute: u8, second: u8) -> CivilDateTime {
    CivilDateTime { date: CivilDate { year, month, day }, hour, minute, second }
}

fn monday_morning() -> CivilDateTime {
    at(2023, 10, 23, 11, 0, 0)
}

fn monday_evening() -> CivilDateTime {
    at(2023, 10, 23, 20, 0, 0)
}

fn friday_morning() -> CivilDateTime {
    at(2023, 10, 27, 11, 0, 0)
}

fn planned(year: i64, month: u8, day: u8) -> PlannedDate {
    PlannedDate { date: CivilDate { year, month, day }, hour: 16 }
}

#[test]
fn test_calculate_planned_date_monday_morning_testnet() {
    assert_eq!(
        calculate_planned_date(12, &monday_morning()),
        planned(2023, 10, 24),
        "expected different date for testnet upgrade when calling on monday morning",
    );
}

#[test]
fn test_calculate_planned_date_monday_morning_mainnet() {
    // the upgrade should happen on the next monday 4PM, not on the
    // saturday that would be t+120h
    assert_eq!(
        calculate_planned_date(120, &monday_morning()),
        planned(2023, 10, 30),
        "expected different date for mainnet upgrade when calling on monday morning",
    );
}

#[test]
fn test_calculate_planned_date_monday_evening_testnet() {
    assert_eq!(
        calculate_planned_date(12, &monday_evening()),
        planned(2023, 10, 25),
        "expected different date for testnet upgrade when calling on monday evening",
    );
}

#[test]
fn test_calculate_planned_date_monday_evening_mainnet() {
    assert_eq!(
        calculate_planned_date(120, &monday_evening()),
        planned(2023, 10, 30),
        "expected different date for mainnet upgrade when calling on monday evening",
    );
}

#[test]
fn test_calculate_planned_date_friday_morning_testnet() {
    assert_eq!(
        calculate_planned_date(12, &friday_morning()),
        planned(2023, 10, 30),
        "expected different date for testnet upgrade when calling on friday morning",
    );
}

#[test]
fn test_calculate_planned_date_friday_morning_mainnet() {
    // the upgrade should happen on the next wednesday 4PM
    assert_eq!(
        calculate_planned_date(120, &friday_morning()),
        planned(2023, 11, 1),
        "expected different date for mainnet upgrade when calling on friday morning",
    );
}

#[test]
fn test_get_time_string_october_morning() {
    let time = at(2023, 10, 23, 4, 0, 0);
    assert_eq!(
        get_time_string(&time),
        "4AM UTC on Mon., October 23., 2023",
        "expected different time string",
    );
}

#[test]
fn test_get_time_string_february_evening() {
    let time = at(2023, 2, 1, 16, 0, 0);
    assert_eq!(
        get_time_string(&time),
        "4PM UTC on Wed., February 1., 2023",
        "expected different time string",
    );
}

#[test]
fn test_is_valid_upgrade_time_week() {
    // 2023-10-23 is a Monday; only the weekend days are rejected
    for day in 23..=27u8 {
        assert!(is_valid_upgrade_time(&at(2023, 10, day, 12, 0, 0)));
    }
    assert!(!is_valid_upgrade_time(&at(2023, 10, 28, 12, 0, 0)));
    assert!(!is_valid_upgrade_time(&at(2023, 10, 29, 12, 0, 0)));
}

#[test]
fn test_planned_date_never_weekend() {
    // sweep a week of start days and a range of voting periods
    for day in 20..=26u8 {
        for vp in [1u64, 12, 24, 48, 120, 240] {
            let now = at(2023, 10, day, 9, 30, 0);
            let date = calculate_planned_date(vp, &now);
            assert_eq!(date.hour, 16);
            assert!(is_valid_upgrade_time(&CivilDateTime {
                date: date.date,
                hour: 16,
                minute: 0,
                second: 0
            }));
        }
    }
}

#[test]
fn test_planned_date_cutoff_hour() {
    // 15:00 is past the cutoff, so the candidate moves one day ahead
    let before_cutoff = at(2023, 10, 23, 14, 0, 0);
    let past_cutoff = at(2023, 10, 23, 15, 0, 0);
    assert_eq!(calculate_planned_date(1, &before_cutoff), planned(2023, 10, 23));
    assert_eq!(calculate_planned_date(1, &past_cutoff), planned(2023, 10, 24));
}

#[test]
fn test_network_from_label_roundtrip() {
    assert_eq!(network_from_label("Local Node"), Some(Network::LocalNode));
    assert_eq!(network_from_label("Testnet"), Some(Network::Testnet));
    assert_eq!(network_from_label("Mainnet"), Some(Network::Mainnet));
    assert_eq!(network_from_label("Devnet"), None);
}

#[test]
fn test_is_valid_commonwealth_link() {
    assert!(is_valid_commonwealth_link(
        "https://commonwealth.im/evmos/discussion/14754-evmos-mainnet-v1600-upgrade"
    ));
    assert!(!is_valid_commonwealth_link("https://example.com/evmos"));
}
