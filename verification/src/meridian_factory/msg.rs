use super::state::ReserveType;
use vstd::prelude::*;

verus! {

/// Parameters of a new factory.
#[derive(Clone, Debug, PartialEq, Eq)]
pub struct InstantiateMsg {
    pub admin: String,
    pub clssc_code_id: u64,
    pub mint_fee_bps: u64,
    pub burn_fee_bps: u64,
    pub fee_collector: String,
}

/// Requests that change the factory.
#[derive(Clone, Debug, PartialEq, Eq)]
pub enum ExecuteMsg {
    RegisterIssuer {
        legal_name: String,
        jurisdiction: String,
        kyc_ref: String,
        reserve_type: ReserveType,
        reserve_uri: String,
    },
    ApproveIssuer { address: String },
    SuspendIssuer { address: String, reason: String },
    RevokeIssuer { address: String, reason: String },
    ReinstateIssuer { address: String },
    DeployStablecoin {
        name: String,
        symbol: String,
        decimals: u8,
        peg_currency: String,
        reserve_type: ReserveType,
        reserve_uri: String,
        whitelist_enabled: bool,
        initial_whitelist: Vec<String>,
    },
    ReportMint { issuer: String, recipient: String, amount: u128, memo: Option<String> },
    ReportBurn { issuer: String, burner: String, amount: u128, memo: Option<String> },
    PauseContract { contract_addr: String },
    UnpauseContract { contract_addr: String },
    UpdateConfig {
        mint_fee_bps: Option<u64>,
        burn_fee_bps: Option<u64>,
        fee_collector: Option<String>,
        accepting_registrations: Option<bool>,
        clssc_code_id: Option<u64>,
    },
    SetApprovedAsset { id: String, name: String, approved: bool },
    TransferAdmin { new_admin: String },
}

/// Read-only requests.
#[derive(Clone, Debug, PartialEq, Eq)]
pub enum QueryMsg {
    Config,
    Issuer { address: String },
    ListIssuers { status_filter: Option<String>, start_after: Option<String>, limit: Option<u32> },
    Deployment { id: u64 },
    DeploymentByContract { contract_addr: String },
    ListDeployments { issuer_filter: Option<String>, start_after: Option<u64>, limit: Option<u32> },
    ApprovedAssets,
    RegistryStats,
    FeeInfo,
}

#[derive(Clone, Copy, Debug, PartialEq, Eq, Structural)]
pub struct RegistryStatsResponse {
    pub total_issuers: u64,
    pub approved_issuers: u64,
    pub total_deployments: u64,
    pub total_fees_collected: u128,
}

#[derive(Clone, Debug, PartialEq, Eq)]
pub struct FeeInfoResponse {
    pub mint_fee_bps: u64,
    pub burn_fee_bps: u64,
    pub fee_collector: String,
    pub total_fees_collected: u128,
}

/// Migration parameters (none).
#[derive(Clone, Copy, Debug, PartialEq, Eq, Structural)]
pub struct MigrateMsg {}

} // verus!
