use vstd::prelude::*;

verus! {

/// What an Aptos connector is built from.
#[derive(Clone, Copy, Debug)]
pub struct AptosConfig<'a> {
    /// The signing key of the account that sends transactions.
    pub secret_key: &'a str,
    /// The address of the chain's RPC node.
    pub client_url: &'a str,
    /// The address of the contract that the transactions call.
    pub sc_address: &'a str,
    /// The most gas a transaction may use.
    pub gas_budget: u64,
}

impl<'a> AptosConfig<'a> {
    /// A configuration that holds exactly the given values.
    pub fn new(secret_key: &'a str, client_url: &'a str, sc_address: &'a str, gas_budget: u64) -> (r:
        Self)
        ensures
            r.secret_key@ == secret_key@,
            r.client_url@ == client_url@,
            r.sc_address@ == sc_address@,
            r.gas_budget == gas_budget,
    {
        AptosConfig { secret_key, client_url, sc_address, gas_budget }
    }
}

/// What a Sui connector is built from.
#[derive(Clone, Copy, Debug)]
pub struct SuiConfig<'a> {
    /// The signing key of the account that sends transactions.
    pub secret_key: &'a str,
    /// The address of the chain's RPC node.
    pub client_url: &'a str,
    /// The address of the contract that the transactions call.
    pub sc_address: &'a str,
    /// The most gas a transaction may use.
    pub gas_budget: u64,
}

impl<'a> SuiConfig<'a> {
    /// A configuration that holds exactly the given values.
    pub fn new(secret_key: &'a str, client_url: &'a str, sc_address: &'a str, gas_budget: u64) -> (r:
        Self)
        ensures
            r.secret_key@ == secret_key@,
            r.client_url@ == client_url@,
            r.sc_address@ == sc_address@,
            r.gas_budget == gas_budget,
    {
        SuiConfig { secret_key, client_url, sc_address, gas_budget }
    }
}

/// What a Supra connector is built from.
#[derive(Clone, Copy, Debug)]
pub struct SupraConfig<'a> {
    /// The signing key of the account that sends transactions.
    pub secret_key: &'a str,
    /// The address of the chain's RPC node.
    pub client_url: &'a str,
    /// The address of the contract that the transactions call.
    pub sc_address: &'a str,
    /// The most gas a transaction may use.
    pub gas_budget: u64,
}

impl<'a> SupraConfig<'a> {
    /// A configuration that holds exactly the given values.
    pub fn new(secret_key: &'a str, client_url: &'a str, sc_address: &'a str, gas_budget: u64) -> (r:
        Self)
        ensures
            r.secret_key@ == secret_key@,
            r.client_url@ == client_url@,
            r.sc_address@ == sc_address@,
            r.gas_budget == gas_budget,
    {
        SupraConfig { secret_key, client_url, sc_address, gas_budget }
    }
}

} // verus!
