use upgrade_helper::release::{
    build_asset_entries, get_checksum_from_assets, get_os_key_from_asset_name, get_release_notes,
    lookup_checksum, parse_checksum_file, parse_checksum_line, ReleaseAsset, ReleaseError,
    ReleaseInfo,
};

fn asset(name: &str, url: &str) -> ReleaseAsset {
    ReleaseAsset { name: name.to_string(), browser_download_url: url.to_string() }
}

#[test]
fn test_get_release_notes_pass() {
    let release = ReleaseInfo {
        tag_name: "v14.0.0".to_string(),
        body: Some("## Changes in v14.0.0\n- improvements".to_string()),
        assets: vec![],
    };
    let notes = get_release_notes(&release).unwrap();
    assert!(notes.contains("v14.0.0"));
}

#[test]
fn test_get_release_notes_fail() {
    let release = ReleaseInfo { tag_name: "v14.0.0".to_string(), body: None, assets: vec![] };
    let res = get_release_notes(&release);
    assert_eq!(res, Err(ReleaseError::NoReleaseNotes));
}

#[test]
fn test_get_os_key_from_asset_name_pass() {
    let name = "evmos_14.0.0_Linux_amd64.tar.gz";
    let key = get_os_key_from_asset_name(name).unwrap();
    assert_eq!(key, "linux/amd64");
}

#[test]
fn test_get_os_key_from_asset_name_fail() {
    let name = "evmos_14.0.amd64.tar";
    assert!(get_os_key_from_asset_name(name).is_none());
}

#[test]
fn test_get_os_key_variants() {
    assert_eq!(
        get_os_key_from_asset_name("evmos_14.0.0_Darwin_arm64.tar.gz").unwrap(),
        "darwin/arm64",
    );
    assert_eq!(
        get_os_key_from_asset_name("evmos_14.0.0_Darwin_amd64.tar.gz").unwrap(),
        "darwin/amd64",
    );
    assert_eq!(
        get_os_key_from_asset_name("evmos_14.0.0_Linux_arm64.tar.gz").unwrap(),
        "linux/arm64",
    );
}

#[test]
fn test_parse_checksum_line_pass() {
    let line = "427c2c4a37f3e8cf6833388240fcda152a5372d4c5132ca2e3861a7085d35cd0 \
                evmos_14.0.0_Linux_amd64.tar.gz";
    let (name, checksum) = parse_checksum_line(line).unwrap();
    assert_eq!(name, "evmos_14.0.0_Linux_amd64.tar.gz");
    assert_eq!(
        checksum,
        "427c2c4a37f3e8cf6833388240fcda152a5372d4c5132ca2e3861a7085d35cd0"
    );
}

#[test]
fn test_parse_checksum_line_fail() {
    // a Windows asset is left out
    assert!(parse_checksum_line("abc123 evmos_14.0.0_Windows_amd64.zip").is_none());
    // any shape other than two fields is rejected
    assert!(parse_checksum_line("").is_none());
    assert!(parse_checksum_line("onlyonefield").is_none());
    assert!(parse_checksum_line("one two three").is_none());
}

#[test]
fn test_parse_checksum_file() {
    let body = "sum1 evmos_14.0.0_Linux_amd64.tar.gz\r\n\
                sum2 evmos_14.0.0_Windows_amd64.zip\n\
                \n\
                sum3 evmos_14.0.0_Darwin_arm64.tar.gz";
    let pairs = parse_checksum_file(body);
    assert_eq!(pairs.len(), 2);
    assert_eq!(pairs[0].0, "evmos_14.0.0_Linux_amd64.tar.gz");
    assert_eq!(pairs[0].1, "sum1");
    assert_eq!(pairs[1].0, "evmos_14.0.0_Darwin_arm64.tar.gz");
    assert_eq!(pairs[1].1, "sum3");
}

#[test]
fn test_lookup_checksum_last_entry_wins() {
    let pairs = vec![
        ("a.tar.gz".to_string(), "first".to_string()),
        ("b.tar.gz".to_string(), "other".to_string()),
        ("a.tar.gz".to_string(), "second".to_string()),
    ];
    assert_eq!(lookup_checksum(&pairs, "a.tar.gz").unwrap(), "second");
    assert_eq!(lookup_checksum(&pairs, "b.tar.gz").unwrap(), "other");
    assert!(lookup_checksum(&pairs, "c.tar.gz").is_none());
}

#[test]
fn test_get_checksum_from_assets() {
    let assets = vec![
        asset("evmos_14.0.0_Linux_amd64.tar.gz", "https://example.org/linux"),
        asset("checksums.txt", "https://example.org/checksums.txt"),
        asset("checksums.txt", "https://example.org/other"),
    ];
    assert_eq!(get_checksum_from_assets(&assets), Some(1));
    assert_eq!(get_checksum_from_assets(&vec![]), None);
}

#[test]
fn test_build_asset_entries() {
    let assets = vec![
        asset(
            "evmos_14.0.0_Linux_amd64.tar.gz",
            "https://github.com/evmos/evmos/releases/download/v14.0.0/evmos_14.0.0_Linux_amd64.tar.gz",
        ),
        asset("checksums.txt", "https://example.org/checksums.txt"),
        asset(
            "evmos_14.0.0_Darwin_arm64.tar.gz",
            "https://github.com/evmos/evmos/releases/download/v14.0.0/evmos_14.0.0_Darwin_arm64.tar.gz",
        ),
    ];
    let checksums = vec![
        ("evmos_14.0.0_Linux_amd64.tar.gz".to_string(), "427c2c".to_string()),
        ("evmos_14.0.0_Darwin_arm64.tar.gz".to_string(), "541d4b".to_string()),
    ];
    let entries = build_asset_entries(&assets, &checksums);
    assert_eq!(entries.len(), 2);
    assert_eq!(entries[0].0, "linux/amd64");
    assert_eq!(
        entries[0].1,
        "https://github.com/evmos/evmos/releases/download/v14.0.0/evmos_14.0.0_Linux_amd64.tar.gz?checksum=427c2c",
    );
    assert_eq!(entries[1].0, "darwin/arm64");
    assert_eq!(
        entries[1].1,
        "https://github.com/evmos/evmos/releases/download/v14.0.0/evmos_14.0.0_Darwin_arm64.tar.gz?checksum=541d4b",
    );
}

#[test]
fn test_build_asset_entries_skips_unknown() {
    // an asset without a checksum on record, and one without a platform
    // pattern, contribute nothing
    let assets = vec![
        asset("evmos_14.0.0_Linux_amd64.tar.gz", "https://example.org/linux"),
        asset("source.tar.gz", "https://example.org/source"),
    ];
    let entries = build_asset_entries(&assets, &vec![]);
    assert!(entries.is_empty());
}
