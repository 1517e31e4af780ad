use vstd::prelude::*;

verus! {

/// Parameters of a new aggregator.
#[derive(Clone, Debug, PartialEq, Eq)]
pub struct InstantiateMsg {
    pub admin: String,
    pub factory: Option<String>,
    /// Staleness threshold in seconds (default 86400).
    pub staleness_threshold_secs: Option<u64>,
    /// Submissions per round (default 1).
    pub min_submissions: Option<u64>,
    pub description: String,
    pub denomination: String,
    /// Initial oracle relayers: (address, label).
    pub initial_oracles: Vec<(String, String)>,
}

/// Requests that change the aggregator.
#[derive(Clone, Debug, PartialEq, Eq)]
pub enum ExecuteMsg {
    /// An oracle relayer submits a reserve attestation.
    SubmitReserve { amount: u128, reference: Option<String> },
    AddOracle { address: String, label: String },
    RemoveOracle { address: String },
    UpdateConfig {
        staleness_threshold_secs: Option<u64>,
        min_submissions: Option<u64>,
        factory: Option<String>,
    },
    /// Emergency manual setting of the reserve.
    AdminOverride { amount: u128, reason: String },
    Pause,
    Unpause,
    TransferAdmin { new_admin: String },
}

/// Read-only requests.
#[derive(Clone, Debug, PartialEq, Eq)]
pub enum QueryMsg {
    LatestRound,
    Round { round_id: u64 },
    Config,
    /// Whether a mint of `mint_amount` on top of `circulating_supply` is covered.
    MintCheck { mint_amount: u128, circulating_supply: u128 },
    ListOracles,
    RoundHistory { limit: Option<u32> },
}

/// Answer to a mint check.
#[derive(Clone, Debug, PartialEq, Eq)]
pub struct MintCheckResponse {
    /// Whether the mint is allowed.
    pub valid: bool,
    /// Current attested reserve.
    pub reserve: u128,
    pub circulating_supply: u128,
    pub mint_amount: u128,
    /// Remaining mintable amount.
    pub headroom: u128,
    /// Why the mint is refused, when it is.
    pub reason: Option<String>,
    /// Seconds since the last oracle update.
    pub data_age_secs: u64,
}

/// One authorised oracle relayer.
#[derive(Clone, Debug, PartialEq, Eq)]
pub struct OracleInfo {
    pub address: String,
    pub label: String,
}

/// All authorised oracle relayers.
#[derive(Clone, Debug, PartialEq, Eq)]
pub struct ListOraclesResponse {
    pub oracles: Vec<OracleInfo>,
}

/// Migration parameters (none).
#[derive(Clone, Copy, Debug, PartialEq, Eq, Structural)]
pub struct MigrateMsg {}

} // verus!
