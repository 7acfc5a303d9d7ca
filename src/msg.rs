use vstd::prelude::*;

verus! {

/// The message that sets up the price-consumer contract.
#[derive(Clone, Debug, PartialEq, Eq)]
pub struct InstantiateMsg {
    /// The address of the oracle's pull contract that proofs are verified by.
    pub supra_pull_contract: String,
}

/// The messages that change the price-consumer contract.
#[derive(Clone, Debug, PartialEq, Eq)]
pub enum ExecuteMsg {
    /// Points the contract at another pull contract.
    UpdateSupraContract { supra_pull_contract: String },
    /// Has the pull contract verify a proof and keeps the prices in it.
    VerifyOracleProof { proof_bytes: Vec<u8> },
}

/// The queries that the price-consumer contract answers.
#[derive(Clone, Copy, Debug, PartialEq, Eq, Structural)]
pub enum QueryMsg {
    /// The address of the pull contract that is set now.
    GetSupraPullContract {},
    /// The price of a pair as the contract keeps it.
    GetPairDataInternal { pair_id: u32 },
    /// The price of a pair as the pull contract keeps it.
    GetPairDataSupra { pair_id: u32 },
}

/// The answer to a query for the pull contract's address.
#[derive(Clone, Debug, PartialEq, Eq)]
pub struct ContractResponse {
    pub supra_pull_contract: String,
}

/// One verified price of one pair, as the pull contract hands it back.
#[derive(Clone, Copy, Debug, PartialEq, Eq, Structural)]
pub struct PriceData {
    pub pair: u32,
    pub price: u128,
    pub timestamp: u64,
    pub decimal: u16,
    pub round: u64,
}

/// The latest price that the contract keeps for one pair.
#[derive(Clone, Copy, Debug, PartialEq, Eq, Structural)]
pub struct OracleHolder {
    pub price: u128,
    pub timestamp: u64,
    pub decimal: u16,
    pub round: u64,
}

} // verus!
