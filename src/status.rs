use vstd::prelude::*;

verus! {

/// Pre-check statuses of the ledger's response-code schema that the execution rules read.
pub const OK: i32 = 0;

pub const TRANSACTION_EXPIRED: i32 = 4;

pub const BUSY: i32 = 12;

pub const SUCCESS: i32 = 22;

pub const PLATFORM_NOT_ACTIVE: i32 = 67;

pub const PLATFORM_TRANSACTION_NOT_CREATED: i32 = 69;

/// gRPC status codes of the transport that mark the node as unhealthy.
pub const GRPC_RESOURCE_EXHAUSTED: i32 = 8;

pub const GRPC_INTERNAL: i32 = 13;

pub const GRPC_UNAVAILABLE: i32 = 14;

/// A pre-check status that means the request was accepted.
pub open spec fn is_success(status: i32) -> bool {
    status == OK || status == SUCCESS
}

/// A pre-check status that means "try another node now".
pub open spec fn is_busy(status: i32) -> bool {
    status == BUSY || status == PLATFORM_NOT_ACTIVE || status == PLATFORM_TRANSACTION_NOT_CREATED
}

/// A transport failure that says the node itself is in trouble (unavailable, overloaded,
/// or torn down, which the transport reports as unavailable or internal).
pub open spec fn is_node_failure(code: i32) -> bool {
    code == GRPC_UNAVAILABLE || code == GRPC_RESOURCE_EXHAUSTED || code == GRPC_INTERNAL
}

pub fn success_status(status: i32) -> (r: bool)
    ensures
        r == is_success(status),
{
    status == OK || status == SUCCESS
}

pub fn busy_status(status: i32) -> (r: bool)
    ensures
        r == is_busy(status),
{
    status == BUSY || status == PLATFORM_NOT_ACTIVE || status == PLATFORM_TRANSACTION_NOT_CREATED
}

pub fn node_failure_code(code: i32) -> (r: bool)
    ensures
        r == is_node_failure(code),
{
    code == GRPC_UNAVAILABLE || code == GRPC_RESOURCE_EXHAUSTED || code == GRPC_INTERNAL
}

} // verus!
