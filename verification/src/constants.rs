//! Process-wide constants of the signing client.

use vstd::prelude::*;

verus! {

/// The JSON-RPC version tag that bitcoind accepts.
pub const BITCOIN_JSON_RPC_VERSION: &'static str = "1.0";

/// The endpoint for our bitcoind full node.
pub const JSON_RPC_ENDPOINT: &'static str = "http://146.190.33.39:18331";

/// The RPC authentication our bitcoind node uses (user + password).
pub const JSON_RPC_AUTH: &'static str = "root:hellohello";

/// The fallback endpoint when no node address is configured.
pub const JSON_RPC_DEFAULT_ADDRESS: &'static str = "http://127.0.0.1:18331";

/// Timeout (in seconds) for JSON-RPC requests.
pub const JSON_RPC_TIMEOUT: u64 = 2;

} // verus!
