use super::msg::AcceptedDenom;
use vstd::prelude::*;

verus! {

/// Swap configuration.
#[derive(Clone, Debug, PartialEq, Eq)]
pub struct Config {
    pub amts_denom: String,
    pub accepted_denoms: Vec<AcceptedDenom>,
    pub floor_price_cents: u64,
    pub ceiling_price_cents: u64,
    pub community_pool_address: String,
    pub dex_contract_address: Option<String>,
    pub fee_collector_address: String,
    pub oracle_address: Option<String>,
    /// Only this address may call the governance messages.
    pub governance_address: String,
}

/// Running totals of the swap.
#[derive(Clone, Copy, Debug, PartialEq, Eq, Structural)]
pub struct State {
    pub paused: bool,
    pub total_swaps: u64,
    pub total_amts_dispensed: u128,
    pub total_usdc_received: u128,
}

} // verus!
