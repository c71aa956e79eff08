use upgrade_helper::date::{CivilDate, CivilDateTime};
use upgrade_helper::helper::{UpgradeHelper, ValidationError};
use upgrade_helper::network::Network;

fn midnight(year: i64, month: u8, day: u8) -> CivilDateTime {
    CivilDateTime { date: CivilDate { year, month, day }, hour: 0, minute: 0, second: 0 }
}

fn testnet_helper() -> UpgradeHelper {
    UpgradeHelper::new(
        Network::Testnet,
        "v14.0.0",
        "v14.0.0-rc1",
        midnight(2021, 1, 1),
        60,
        "",
        "/home/user",
    )
}

#[test]
fn test_new_upgrade_helper() {
    let helper = testnet_helper();
    assert_eq!(helper.chain_id, "evmos_9000-4");
    assert_eq!(helper.config_file_name, "proposal-Testnet-v14.0.0-rc1.json");
    assert!(helper.home.contains(".evmosd"), "expected different home directory");
    assert_eq!(helper.network, Network::Testnet);
    assert_eq!(helper.previous_version, "v14.0.0");
    assert_eq!(helper.proposal_name, "Evmos Testnet v14.0.0-rc1 Upgrade");
    assert_eq!(helper.proposal_file_name, "proposal-Testnet-v14.0.0-rc1.md");
    assert_eq!(helper.target_version, "v14.0.0-rc1");
    assert_eq!(helper.upgrade_height, 60);
    assert_eq!(helper.voting_period, 12);
}

#[test]
fn test_validate_pass() {
    // 2021-01-01 is a Friday
    let helper = testnet_helper();
    assert_eq!(helper.validate(true), Ok(()));
}

#[test]
fn test_validate_rejects_target_version() {
    let mut helper = testnet_helper();
    helper.target_version = "v14.0.0".to_string();
    assert_eq!(
        helper.validate(true),
        Err(ValidationError::TargetVersion(Network::Testnet, "v14.0.0".to_string())),
    );
}

#[test]
fn test_validate_rejects_previous_version() {
    let mut helper = testnet_helper();
    helper.previous_version = "14.0".to_string();
    assert_eq!(
        helper.validate(true),
        Err(ValidationError::PreviousVersion("14.0".to_string())),
    );
}

#[test]
fn test_validate_rejects_weekend_upgrade_time() {
    let mut helper = testnet_helper();
    // 2021-01-02 is a Saturday
    helper.upgrade_time = midnight(2021, 1, 2);
    assert_eq!(
        helper.validate(true),
        Err(ValidationError::UpgradeTime(midnight(2021, 1, 2))),
    );
}

#[test]
fn test_validate_rejects_missing_home() {
    let helper = testnet_helper();
    assert_eq!(
        helper.validate(false),
        Err(ValidationError::HomeDir("/home/user/.evmosd".to_string())),
    );
}
