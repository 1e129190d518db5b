//! Client-side core of a ledger SDK, with its contracts proved.
//!
//! - `ids`, `text`: entity and transaction ids, their textual forms.
//! - `network`: the node snapshot, per-node health and backoff, sampling, address-book updates.
//! - `execute`: the state machine of one execute call (rounds, outcome classification,
//!   transaction-id regeneration, backoff and cancellation).
//! - `client`, `config`, `networks`: client settings, its builder and the built-in networks.
//! - `transaction`, `token`, `topic`, `system`, `exchange_rates`: request and response data.
//! - `signature`: the ordered signature map of a transaction.
use vstd::prelude::*;

pub mod ids;
pub mod network;
pub mod status;
pub mod error;
pub mod execute;
pub mod config;
pub mod client;
pub mod networks;
pub mod transaction;
pub mod token;
pub mod topic;
pub mod system;
pub mod exchange_rates;
pub mod signature;
pub mod text;
pub mod checksum;

verus! {

} // verus!
