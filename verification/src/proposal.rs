//! Building the linked values that the proposal text is rendered from.

use vstd::prelude::*;

use crate::network::Network;
use crate::strutil::{spec_u64_dec, spec_u64_grouped, u64_to_grouped_string, u64_to_string};

verus! {

/// The base URL of the block explorer for a network.
pub open spec fn spec_explorer_base(network: Network) -> Seq<char> {
    match network {
        Network::LocalNode => "https://www.mintscan.io/evmos/blocks/"@,
        Network::Mainnet => "https://www.mintscan.io/evmos/blocks/"@,
        Network::Testnet => "https://testnet.mintscan.io/evmos-testnet/blocks/"@,
    }
}

/// The Markdown link for a block height: the height with thousands
/// separators as the text, the block explorer page as the target.
pub open spec fn spec_height_link(network: Network, height: int) -> Seq<char> {
    "["@ + spec_u64_grouped(height) + "]("@ + spec_explorer_base(network) + spec_u64_dec(height)
        + ")"@
}

/// Returns the Markdown link to the block at the given height in the
/// explorer of the given network.
pub fn get_height_with_link(network: Network, height: u64) -> (r: String)
    ensures
        r@ == spec_height_link(network, height as int),
{
    let grouped = u64_to_grouped_string(height);
    let plain = u64_to_string(height);
    let mut r = String::from_str("[");
    r.append(grouped.as_str());
    r.append("](");
    match network {
        Network::LocalNode => r.append("https://www.mintscan.io/evmos/blocks/"),
        Network::Mainnet => r.append("https://www.mintscan.io/evmos/blocks/"),
        Network::Testnet => r.append("https://testnet.mintscan.io/evmos-testnet/blocks/"),
    }
    r.append(plain.as_str());
    r.append(")");
    r
}

/// The Markdown link for a release: the version as the text, the release
/// page as the target.
pub open spec fn spec_release_md_link(version: Seq<char>) -> Seq<char> {
    "["@ + version + "](https://github.com/evmos/evmos/releases/tag/"@ + version + ")"@
}

/// Returns the Markdown link to the release of the given version.
pub fn get_release_md_link(version: &str) -> (r: String)
    ensures
        r@ == spec_release_md_link(version@),
{
    let mut r = String::from_str("[");
    r.append(version);
    r.append("](https://github.com/evmos/evmos/releases/tag/");
    r.append(version);
    r.append(")");
    r
}

/// The link to the source comparison between two versions.
pub open spec fn spec_diff_link(previous: Seq<char>, target: Seq<char>) -> Seq<char> {
    "https://github.com/evmos/evmos/compare/"@ + previous + ".."@ + target
}

/// Returns the link to the source comparison between the previous and the
/// target version.
pub fn get_diff_link(previous_version: &str, target_version: &str) -> (r: String)
    ensures
        r@ == spec_diff_link(previous_version@, target_version@),
{
    let mut r = String::from_str("https://github.com/evmos/evmos/compare/");
    r.append(previous_version);
    r.append("..");
    r.append(target_version);
    r
}

} // verus!
