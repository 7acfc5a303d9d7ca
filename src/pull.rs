use vstd::prelude::*;

verus! {

/// A request to the pull service for the proof of some price pairs.
#[derive(Clone, Debug, PartialEq, Eq)]
pub struct PullRequest {
    pub pair_indexes: Vec<u32>,
    pub chain_type: String,
}

/// A request to the pull service for the proof of some price pairs, as the
/// Supra connector sends it.
#[derive(Clone, Debug, PartialEq, Eq)]
pub struct PullSupraRequest {
    pub pair_indexes: Vec<u32>,
    pub chain_type: String,
}

/// The pull service's answer for Aptos chains.
#[derive(Clone, Debug, PartialEq, Eq)]
pub struct PullResponseAptos {
    pub pair_indexes: Vec<u32>,
    pub dkg_object: String,
    pub oracle_holder_object: String,
    pub proof_bytes: String,
}

/// The pull service's answer for EVM chains.
#[derive(Clone, Debug, PartialEq, Eq)]
pub struct PullResponseEvm {
    pub pair_indexes: Vec<u32>,
    pub proof_bytes: String,
}

/// The pull service's answer for Sui chains.
#[derive(Clone, Debug, PartialEq, Eq)]
pub struct PullResponseSui {
    pub pair_indexes: Vec<u32>,
    pub dkg_object: String,
    pub oracle_holder_object: String,
    pub merkle_root_object: String,
    pub proof_bytes: String,
}

/// The pull service's answer for Supra chains.
#[derive(Clone, Debug, PartialEq, Eq)]
pub struct PullResponseSupra {
    pub pair_indexes: Vec<u32>,
    pub dkg_object: String,
    pub oracle_holder_object: String,
    pub proof_bytes: String,
}

/// What a Supra node answers when asked about an account.
#[derive(Clone, Debug, PartialEq, Eq)]
pub struct SupraAccountResponse {
    pub sequence_number: u64,
    pub authentication_key: String,
}

/// What can go wrong in the CosmWasm connector.
#[derive(Clone, Copy, Debug, PartialEq, Eq, Structural)]
pub enum CosmWasmConnectorError {
    /// The node's account query failed.
    InvalidGRPCResponse,
}

impl CosmWasmConnectorError {
    /// A one-line description of the error.
    pub fn message(&self) -> (r: String)
        ensures
            r@ == self.message_spec(),
    {
        match self {
            CosmWasmConnectorError::InvalidGRPCResponse => String::from_str("invalid grpc response"),
        }
    }

    pub open spec fn message_spec(&self) -> Seq<char> {
        match self {
            CosmWasmConnectorError::InvalidGRPCResponse => "invalid grpc response"@,
        }
    }
}

} // verus!
