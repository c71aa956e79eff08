//! The client configuration of the node software.

use vstd::prelude::*;

verus! {

/// The client configuration of the node, as stored in its configuration
/// file.
#[derive(Clone, Debug)]
pub struct ClientConfig {
    pub chain_id: String,
    pub keyring_backend: String,
    pub output: String,
    pub node: String,
    pub broadcast_mode: String,
}

} // verus!
