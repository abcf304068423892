//! A minimal client core for a threshold-custody Bitcoin signing system:
//! a purpose-built JSON-RPC 1.0 request builder and response interpreter
//! for a Bitcoin full node, the transaction pipeline (fund, sign,
//! broadcast) built on it, and the key-ceremony logic that selects an
//! even-parity aggregate key and lays out the committee artifacts.

pub mod ceremony;
pub mod committee;
pub mod constants;
pub mod hexcodec;
pub mod pipeline;
pub mod rpc;
pub mod textfmt;

use vstd::prelude::*;

verus! {

} // verus!
