use upgrade_helper::network::Network;
use upgrade_helper::version::{is_valid_version, is_valid_version_for_network};

#[test]
fn test_is_valid_version_pass() {
    assert_eq!(is_valid_version("v14.0.0"), true);
    assert_eq!(is_valid_version("v14.0.0-rc1"), true);
}

#[test]
fn test_is_valid_version_fail() {
    assert_eq!(is_valid_version("v14.0."), false);
    assert_eq!(is_valid_version("v.0.1"), false);
}

#[test]
fn test_is_valid_target_version_local_node_pass() {
    assert_eq!(is_valid_version_for_network(Network::LocalNode, "v14.0.0"), true);
}

#[test]
fn test_is_valid_target_version_local_node_fail() {
    assert_eq!(is_valid_version_for_network(Network::LocalNode, "v14.0"), false);
}

#[test]
fn test_is_valid_target_version_testnet_pass() {
    assert_eq!(is_valid_version_for_network(Network::Testnet, "v14.0.0-rc1"), true);
}

#[test]
fn test_is_valid_target_version_testnet_fail() {
    assert_eq!(is_valid_version_for_network(Network::Testnet, "v14.0.0"), false);
}

#[test]
fn test_is_valid_target_version_mainnet_pass() {
    assert_eq!(is_valid_version_for_network(Network::Mainnet, "v14.0.0"), true);
}

#[test]
fn test_is_valid_target_version_mainnet_fail() {
    assert_eq!(is_valid_version_for_network(Network::Mainnet, "v14.0.0-rc1"), false);
}

#[test]
fn test_is_valid_version_multiple_rc_suffixes() {
    // the release-candidate suffix may repeat in the generic rule
    assert_eq!(is_valid_version("v1.2.3-rc1-rc2"), true);
    // but the test network requires exactly one
    assert_eq!(is_valid_version_for_network(Network::Testnet, "v1.2.3-rc1-rc2"), false);
}

#[test]
fn test_is_valid_version_rejects_malformed() {
    assert_eq!(is_valid_version(""), false);
    assert_eq!(is_valid_version("14.0.0"), false);
    assert_eq!(is_valid_version("v14.0.0-rc"), false);
    assert_eq!(is_valid_version("v14..0"), false);
    assert_eq!(is_valid_version("v14.0.0 "), false);
    assert_eq!(is_valid_version("av14.0.0"), false);
}

#[test]
fn test_network_version_accepts_any_minor() {
    // the per-network rules add only the release-candidate rule on top of
    // the generic pattern; digit counts are not restricted
    assert_eq!(is_valid_version("v14.10.0"), true);
    assert_eq!(is_valid_version_for_network(Network::LocalNode, "v14.10.0"), true);
    assert_eq!(is_valid_version_for_network(Network::Mainnet, "v14.10.0"), true);
    assert_eq!(is_valid_version_for_network(Network::Testnet, "v14.10.0"), false);
    assert_eq!(is_valid_version_for_network(Network::Testnet, "v14.10.0-rc2"), true);
}
