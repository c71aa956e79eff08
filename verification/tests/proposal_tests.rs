use upgrade_helper::llm::{build_summary_prompt, OpenAIModel};
use upgrade_helper::network::Network;
use upgrade_helper::proposal::{get_diff_link, get_height_with_link, get_release_md_link};
use upgrade_helper::strutil::u64_to_grouped_string;

#[test]
fn test_grouped_number_formatting() {
    assert_eq!(u64_to_grouped_string(0), "0");
    assert_eq!(u64_to_grouped_string(100), "100");
    assert_eq!(u64_to_grouped_string(1000), "1,000");
    assert_eq!(u64_to_grouped_string(50000), "50,000");
    assert_eq!(u64_to_grouped_string(18798834), "18,798,834");
}

#[test]
fn test_get_height_with_link() {
    assert_eq!(
        get_height_with_link(Network::Mainnet, 18798834),
        "[18,798,834](https://www.mintscan.io/evmos/blocks/18798834)",
    );
    assert_eq!(
        get_height_with_link(Network::Testnet, 60),
        "[60](https://testnet.mintscan.io/evmos-testnet/blocks/60)",
    );
    assert_eq!(
        get_height_with_link(Network::LocalNode, 60),
        "[60](https://www.mintscan.io/evmos/blocks/60)",
    );
}

#[test]
fn test_get_release_md_link() {
    assert_eq!(
        get_release_md_link("v14.0.0"),
        "[v14.0.0](https://github.com/evmos/evmos/releases/tag/v14.0.0)",
    );
}

#[test]
fn test_get_diff_link() {
    assert_eq!(
        get_diff_link("v13.0.0", "v14.0.0"),
        "https://github.com/evmos/evmos/compare/v13.0.0..v14.0.0",
    );
}

#[test]
fn test_model_ids() {
    assert_eq!(OpenAIModel::GPT3_5.model_id(), "gpt-3.5-turbo");
    assert_eq!(OpenAIModel::GPT4.model_id(), "gpt-4");
}

#[test]
fn test_build_summary_prompt() {
    let prompt = build_summary_prompt("notes here");
    assert_eq!(
        prompt,
        "Please provide a brief summary for the following release notes using bullet points.\
         You do not need to mention the version or release data, only the changes.\
         Please also just provide a description of the changes but don't mention the change types like State Machine Breaking.\
         Please do not include any pull request links.\
         Please keep the summary to a maximum of 10 bullet points.\
         \n\"notes here\"}",
    );
}
