use upgrade_helper::evmosd::ClientConfig;
use upgrade_helper::keys::{
    filter_keys_with_balance, is_nonzero_amount, FilterKeysConfig, Key, KeysError,
};
use upgrade_helper::network::Network;

fn key(name: &str, address: &str) -> Key {
    Key { name: name.to_string(), address: address.to_string() }
}

#[test]
fn test_filter_keys_with_balance() {
    let keys = vec![
        key("newkey", "evmos12ly0g0dj6amk5uch77mz7d022h3sd10enf4ln9"),
        key("empty", "evmos1k0sx0f62383ufue5gn6xth029wut0twut294fw"),
        key("dev0", "evmos1hafptm4zxy7y4fj6j7m6fj5n89v2zjy5l7ltae"),
    ];
    let names = filter_keys_with_balance(&keys, &vec![true, false, true]).unwrap();
    assert_eq!(names, vec!["newkey".to_string(), "dev0".to_string()]);
}

#[test]
fn test_filter_keys_without_balance() {
    let keys = vec![key("newkey", "evmos12ly0g0dj6amk5uch77mz7d022h3sd10enf4ln9")];
    assert_eq!(
        filter_keys_with_balance(&keys, &vec![false]),
        Err(KeysError::NoKeysWithBalance),
    );
    assert_eq!(
        filter_keys_with_balance(&vec![], &vec![]),
        Err(KeysError::NoKeysWithBalance),
    );
}

#[test]
fn test_is_nonzero_amount() {
    assert!(!is_nonzero_amount("0"));
    assert!(is_nonzero_amount("1"));
    assert!(is_nonzero_amount("1000000000000000000"));
    // any amount other than the literal zero counts as a balance
    assert!(is_nonzero_amount("00"));
}

#[test]
fn test_filter_keys_config_holds_its_parts() {
    let config = FilterKeysConfig {
        config: ClientConfig {
            chain_id: "evmos_9000-1".to_string(),
            keyring_backend: "test".to_string(),
            output: "text".to_string(),
            node: "tcp://localhost:26657".to_string(),
            broadcast_mode: "sync".to_string(),
        },
        home: "/home/user/.evmosd".to_string(),
        network: Network::Testnet,
    };
    assert_eq!(config.config.keyring_backend, "test");
    assert_eq!(config.network, Network::Testnet);

    let key = Key {
        name: "newkey".to_string(),
        address: "evmos12ly0g0dj6amk5uch77mz7d022h3sd10enf4ln9".to_string(),
    };
    assert_eq!(key.address, "evmos12ly0g0dj6amk5uch77mz7d022h3sd10enf4ln9");
}
