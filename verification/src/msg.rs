use vstd::prelude::*;

verus! {

/// Instantiates the contract.
#[derive(Clone, Debug, PartialEq, Eq)]
pub struct InstantiateMsg {
    /// Fee kept on each swap, in ten-thousandths of the offer: at most 10000,
    /// which is 100%.
    pub fee_rate: u64,
}

/// The messages that change the contract's state or start a swap.
#[derive(Clone, Debug, PartialEq, Eq)]
pub enum ExecuteMsg {
    /// Swap the attached coin on a registered pair.
    Astro { pair_address: String },
    /// Register a pool for a pair of tokens.
    AddSupportedPool { pool_address: String, token_1: String, token_2: String },
    /// Swap the attached native coin on any Astroport pool of two native tokens.
    MySwap { pool_address: String },
}

/// The questions the contract answers.
#[derive(Clone, Debug, PartialEq, Eq)]
pub enum QueryMsg {
    /// The tokens of the pool registered at an address.
    GetPair { pool_address: String },
    /// The addresses of the pools registered for a pair of tokens.
    GetPoolAddr { token_1: String, token_2: String },
}

/// The tokens of a registered pool.
#[derive(Clone, Debug, PartialEq, Eq)]
pub struct GetPairResponse {
    pub token_1: String,
    pub token_2: String,
}

/// The addresses of the pools registered for a pair.
#[derive(Clone, Debug, PartialEq, Eq)]
pub struct GetPoolAddrResponse {
    pub pool_addresses: Vec<String>,
}

} // verus!
