use vstd::prelude::*;

verus! {

/// Verifier configuration.
#[derive(Clone, Debug, PartialEq, Eq)]
pub struct Config {
    pub admin: String,
    /// The aggregator this verifier reports to.
    pub aggregator_addr: String,
    /// The issuer whose balances are tracked.
    pub issuer_addr: String,
    pub description: String,
}

/// A CW20 token held as reserve.
#[derive(Clone, Debug, PartialEq, Eq)]
pub struct ReserveSource {
    pub id: String,
    /// CW20 contract address.
    pub token_contract: String,
    pub label: String,
    pub active: bool,
    /// Balance at the last snapshot.
    pub last_balance: u128,
    /// Block height of the last snapshot.
    pub last_snapshot_height: u64,
}

} // verus!
