//! The errors of a client call.
use vstd::prelude::*;

verus! {

/// tonic's `Status`: the failure of one shard RPC, carried through unexamined.
#[verifier::external_type_specification]
#[verifier::external_body]
pub struct ExStatus(tonic::Status);

/// Why a client call failed.
#[derive(Debug)]
pub enum ClientError {
    /// No registered prefix matches the path that the call needs routed.
    NotFound(String),
    /// `lock` was given no paths.
    InvalidInput,
    /// A shard RPC failed; the batch stopped there.
    TransportFailure(tonic::Status),
    /// `unsubscribe` is declared but not provided.
    NotImplemented,
}

} // verus!
