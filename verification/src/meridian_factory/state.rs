use vstd::prelude::*;

verus! {

/// Factory configuration.
#[derive(Clone, Debug, PartialEq, Eq)]
pub struct Config {
    /// Can approve issuers, update rules, collect fees.
    pub admin: String,
    /// Code id of the stablecoin template instantiated per deployment.
    pub clssc_code_id: u64,
    /// Fee in basis points on every mint.
    pub mint_fee_bps: u64,
    /// Fee in basis points on every burn.
    pub burn_fee_bps: u64,
    /// Receives the factory's fee cut.
    pub fee_collector: String,
    /// Total fees collected.
    pub total_fees_collected: u128,
    /// Total stablecoins deployed.
    pub total_deployments: u64,
    /// Whether new issuers may register.
    pub accepting_registrations: bool,
}

/// Lifecycle state of an issuer.
#[derive(Clone, Copy, Debug, PartialEq, Eq, Structural)]
pub enum IssuerStatus {
    /// KYC submitted, awaiting approval.
    Pending,
    /// Approved: can deploy stablecoins.
    Approved,
    /// Suspended.
    Suspended,
    /// Revoked.
    Revoked,
}

/// What an issuer declares backs its stablecoins.
#[derive(Clone, Copy, Debug, PartialEq, Eq, Structural)]
pub enum ReserveType {
    USDFiat,
    TBills,
    USDC,
    USDT,
    Mixed,
}

/// A registered issuer.
#[derive(Clone, Debug, PartialEq, Eq)]
pub struct IssuerRecord {
    pub address: String,
    pub legal_name: String,
    pub jurisdiction: String,
    pub kyc_ref: String,
    pub status: IssuerStatus,
    pub reserve_type: ReserveType,
    pub reserve_uri: String,
    /// Block height of registration.
    pub registered_at: u64,
    /// Block height of the last approval.
    pub approved_at: Option<u64>,
    /// Number of stablecoins deployed.
    pub deployments: u64,
    pub lifetime_minted: u128,
    pub lifetime_burned: u128,
    pub lifetime_fees: u128,
}

/// A deployed (or pending) stablecoin.
#[derive(Clone, Debug, PartialEq, Eq)]
pub struct DeploymentRecord {
    pub id: u64,
    pub issuer: String,
    /// The stablecoin's address (the factory's own until the deployment is confirmed).
    pub contract_addr: String,
    pub name: String,
    pub symbol: String,
    pub decimals: u8,
    /// Peg currency (e.g. "USD").
    pub peg_currency: String,
    pub reserve_type: ReserveType,
    pub reserve_uri: String,
    /// Block height of deployment.
    pub deployed_at: u64,
    /// Whether the stablecoin is active.
    pub active: bool,
    pub circulating_supply: u128,
    pub lifetime_minted: u128,
    pub lifetime_burned: u128,
    pub lifetime_fees: u128,
}

/// A reserve asset and whether it is approved.
#[derive(Clone, Debug, PartialEq, Eq)]
pub struct ApprovedAsset {
    pub id: String,
    pub name: String,
    pub approved: bool,
}

} // verus!
