//! The supported networks and their static per-network constants.

use vstd::prelude::*;

verus! {

/// The network a proposal is prepared for.
#[derive(Clone, Copy, Debug, PartialEq, Eq, Structural)]
pub enum Network {
    LocalNode,
    Testnet,
    Mainnet,
}

/// The display label of a network, as it appears in prompts and file names.
pub open spec fn spec_network_label(network: Network) -> Seq<char> {
    match network {
        Network::LocalNode => "Local Node"@,
        Network::Testnet => "Testnet"@,
        Network::Mainnet => "Mainnet"@,
    }
}

/// The native denomination of a network.
pub open spec fn spec_denom(network: Network) -> Seq<char> {
    match network {
        Network::LocalNode => "aevmos"@,
        Network::Testnet => "atevmos"@,
        Network::Mainnet => "aevmos"@,
    }
}

/// The chain ID of a network.
pub open spec fn spec_chain_id(network: Network) -> Seq<char> {
    match network {
        Network::LocalNode => "evmos_9000-4"@,
        Network::Testnet => "evmos_9000-4"@,
        Network::Mainnet => "evmos_9001-2"@,
    }
}

/// The Tendermint RPC endpoint of a network.
pub open spec fn spec_rpc_url(network: Network) -> Seq<char> {
    match network {
        Network::Mainnet => "https://tm.evmos.lava.build:443"@,
        Network::Testnet => "https://tm.evmos-testnet.lava.build:443"@,
        Network::LocalNode => "http://localhost:26657"@,
    }
}

/// The REST endpoint of a network, used for block queries.
pub open spec fn spec_rest_provider(network: Network) -> Seq<char> {
    match network {
        Network::LocalNode => "http://localhost:1317"@,
        Network::Mainnet => "https://rest.evmos.lava.build"@,
        Network::Testnet => "https://rest.evmos-testnet.lava.build"@,
    }
}

/// The name of the node home directory of a network, relative to the
/// user's home directory.
pub open spec fn spec_home_dir_name(network: Network) -> Seq<char> {
    match network {
        Network::LocalNode => ".tmp-evmosd"@,
        Network::Testnet => ".evmosd"@,
        Network::Mainnet => ".evmosd"@,
    }
}

/// The voting period of a network, in hours.
pub open spec fn spec_voting_period_hours(network: Network) -> int {
    match network {
        Network::LocalNode => 1,
        Network::Testnet => 12,
        Network::Mainnet => 120,
    }
}

impl Network {
    /// Returns the display label of the network.
    pub fn label(&self) -> (r: String)
        ensures
            r@ == spec_network_label(*self),
    {
        match self {
            Network::LocalNode => String::from_str("Local Node"),
            Network::Testnet => String::from_str("Testnet"),
            Network::Mainnet => String::from_str("Mainnet"),
        }
    }
}

/// Returns the native denomination for the given network.
pub fn get_denom(network: Network) -> (r: String)
    ensures
        r@ == spec_denom(network),
{
    match network {
        Network::LocalNode => String::from_str("aevmos"),
        Network::Testnet => String::from_str("atevmos"),
        Network::Mainnet => String::from_str("aevmos"),
    }
}

/// Returns the chain ID for the given network.
pub fn get_chain_id(network: Network) -> (r: String)
    ensures
        r@ == spec_chain_id(network),
{
    match network {
        Network::LocalNode => String::from_str("evmos_9000-4"),
        Network::Testnet => String::from_str("evmos_9000-4"),
        Network::Mainnet => String::from_str("evmos_9001-2"),
    }
}

/// Returns the Tendermint RPC URL for the given network.
pub fn get_rpc_url(network: Network) -> (r: String)
    ensures
        r@ == spec_rpc_url(network),
{
    match network {
        Network::Mainnet => String::from_str("https://tm.evmos.lava.build:443"),
        Network::Testnet => String::from_str("https://tm.evmos-testnet.lava.build:443"),
        Network::LocalNode => String::from_str("http://localhost:26657"),
    }
}

/// Returns the REST provider base URL for the given network.
pub fn get_rest_provider(network: Network) -> (r: String)
    ensures
        r@ == spec_rest_provider(network),
{
    match network {
        Network::LocalNode => String::from_str("http://localhost:1317"),
        Network::Mainnet => String::from_str("https://rest.evmos.lava.build"),
        Network::Testnet => String::from_str("https://rest.evmos-testnet.lava.build"),
    }
}

/// Returns the name of the node home directory for the given network.
pub fn get_home_dir_name(network: Network) -> (r: String)
    ensures
        r@ == spec_home_dir_name(network),
{
    match network {
        Network::LocalNode => String::from_str(".tmp-evmosd"),
        Network::Testnet => String::from_str(".evmosd"),
        Network::Mainnet => String::from_str(".evmosd"),
    }
}

/// Returns the fee amount for submitting a proposal on the given network:
/// a fixed amount in the network's native denomination.
pub fn get_fees(network: Network) -> (r: String)
    ensures
        r@ == "10000000000"@ + spec_denom(network),
{
    let mut r = String::from_str("10000000000");
    let denom = get_denom(network);
    r.append(denom.as_str());
    r
}

/// Returns the voting period duration for the given network, in hours.
pub fn get_voting_period(network: Network) -> (r: u64)
    ensures
        r == spec_voting_period_hours(network),
{
    match network {
        Network::LocalNode => 1,
        Network::Testnet => 12,
        Network::Mainnet => 120,
    }
}

} // verus!
