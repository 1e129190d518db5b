use vstd::prelude::*;

use crate::ids::{AccountId, TransactionId};

verus! {

/// What can go wrong while building or executing a request.
#[derive(Debug)]
pub enum Error {
    /// The transport failed with a gRPC status that no other node would cure.
    Transport { code: i32 },
    /// A node rejected the request at pre-check.
    PreCheckStatus { status: i32, transaction_id: Option<TransactionId> },
    /// A node answered with a status the response-code schema does not define.
    ResponseStatusUnrecognized(i32),
    /// The time budget ran out; holds the last error seen, if any.
    TimedOut(Option<Box<Error>>),
    /// Every allowed round failed; holds the last error seen, if any.
    MaxAttemptsExceeded(Option<Box<Error>>),
    /// A transaction needs a payer: neither an operator nor a transaction id was set.
    NoPayerAccountOrTransactionId,
    /// A requested node account is not in the network (or the network has no node at all).
    NodeAccountUnknown(Option<AccountId>),
    /// An entity id's checksum does not match the client's ledger.
    CannotValidateChecksum,
    /// Text could not be parsed into an id, a key or a configuration.
    BasicParse(String),
    /// A wire message could not be decoded.
    FromProtobuf(String),
    /// Building the request for a node failed (for example, signing it).
    RequestFailed(String),
}

} // verus!
