use vstd::prelude::*;

verus! {

/// Parameters of a new swap contract.
#[derive(Clone, Debug, PartialEq, Eq)]
pub struct InstantiateMsg {
    /// AMTS denom on this chain.
    pub amts_denom: String,
    /// Accepted input denoms.
    pub accepted_denoms: Vec<AcceptedDenom>,
    /// Floor price in USD cents (750 = $7.50).
    pub floor_price_cents: u64,
    /// Ceiling price in USD cents.
    pub ceiling_price_cents: u64,
    pub community_pool_address: String,
    pub dex_contract_address: Option<String>,
    pub fee_collector_address: String,
    pub oracle_address: Option<String>,
    pub governance_address: String,
}

/// An input token the swap accepts, with its USD price.
#[derive(Clone, Debug, PartialEq, Eq)]
pub struct AcceptedDenom {
    pub denom: String,
    pub name: String,
    /// Price of one base unit in USD micro-cents.
    pub usd_micro_cents_per_base: u64,
}

/// Requests that change the swap.
#[derive(Clone, Debug, PartialEq, Eq)]
pub enum ExecuteMsg {
    /// Swap the sent funds for at least `min_amts_out` AMTS.
    Swap { min_amts_out: u128 },
    Pause,
    Resume,
    UpdateCeiling { new_ceiling_cents: u64 },
    UpdateAcceptedDenoms { denoms: Vec<AcceptedDenom> },
    UpdateFeeRouting {
        community_pool_address: Option<String>,
        fee_collector_address: Option<String>,
        dex_contract_address: Option<String>,
    },
    UpdateOracle { oracle_address: Option<String> },
}

/// Read-only requests.
#[derive(Clone, Debug, PartialEq, Eq)]
pub enum QueryMsg {
    Config,
    Quote { denom: String, amount: u128 },
    Reserve,
    State,
}

#[derive(Clone, Debug, PartialEq, Eq)]
pub struct ConfigResponse {
    pub amts_denom: String,
    pub accepted_denoms: Vec<AcceptedDenom>,
    pub floor_price_cents: u64,
    pub ceiling_price_cents: u64,
    pub community_pool_address: String,
    pub dex_contract_address: Option<String>,
    pub fee_collector_address: String,
    pub oracle_address: Option<String>,
    pub governance_address: String,
}

#[derive(Clone, Debug, PartialEq, Eq)]
pub struct QuoteResponse {
    pub input_denom: String,
    pub input_amount: u128,
    pub amts_out: u128,
    pub rate_cents: u64,
    pub fee_amount: u128,
    pub rebate_amount: u128,
    pub net_fee: u128,
    pub community_pool_amount: u128,
}

#[derive(Clone, Copy, Debug, PartialEq, Eq, Structural)]
pub struct ReserveResponse {
    pub amts_balance: u128,
}

#[derive(Clone, Copy, Debug, PartialEq, Eq, Structural)]
pub struct StateResponse {
    pub paused: bool,
    pub current_rate_cents: u64,
    pub floor_price_cents: u64,
    pub ceiling_price_cents: u64,
    pub total_swaps: u64,
    pub total_amts_dispensed: u128,
    pub total_usdc_received: u128,
}

} // verus!
