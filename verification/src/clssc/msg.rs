use vstd::prelude::*;

verus! {

/// An initial CW20 balance.
#[derive(Clone, Debug, PartialEq, Eq)]
pub struct Cw20Coin {
    pub address: String,
    pub amount: u128,
}

/// When an allowance expires.
#[derive(Clone, Copy, Debug, PartialEq, Eq, Structural)]
pub enum Expiration {
    AtHeight(u64),
    /// Block time in nanoseconds.
    AtTime(u64),
    Never,
}

/// Parameters of a new stablecoin.
#[derive(Clone, Debug, PartialEq, Eq)]
pub struct InstantiateMsg {
    pub name: String,
    pub symbol: String,
    pub decimals: u8,
    pub admin: String,
    /// Initial minters: (address, label).
    pub initial_minters: Vec<(String, String)>,
    /// Lifetime mint caps: (address, cap).
    pub mint_caps: Vec<(String, u128)>,
    pub reserve_uri: String,
    pub whitelist_enabled: bool,
    pub initial_whitelist: Vec<String>,
    pub initial_balances: Vec<Cw20Coin>,
    pub aggregator_addr: Option<String>,
    pub por_enforced: Option<bool>,
}

/// Requests that change the stablecoin.
#[derive(Clone, Debug, PartialEq, Eq)]
pub enum ExecuteMsg {
    Transfer { recipient: String, amount: u128 },
    TransferFrom { owner: String, recipient: String, amount: u128 },
    IncreaseAllowance { spender: String, amount: u128, expires: Option<Expiration> },
    DecreaseAllowance { spender: String, amount: u128, expires: Option<Expiration> },
    Send { contract: String, amount: u128, msg: Vec<u8> },
    SendFrom { owner: String, contract: String, amount: u128, msg: Vec<u8> },
    Mint { recipient: String, amount: u128, memo: Option<String> },
    Burn { amount: u128, memo: Option<String> },
    BurnFrom { owner: String, amount: u128, memo: Option<String> },
    AddMinter { address: String, label: String, cap: Option<u128> },
    RemoveMinter { address: String },
    AddToWhitelist { address: String },
    RemoveFromWhitelist { address: String },
    SetWhitelistEnabled { enabled: bool },
    FreezeAccount { address: String, reason: String },
    UnfreezeAccount { address: String },
    SetAggregator { aggregator_addr: String },
    SetPorEnforced { enforced: bool },
    UpdateReserveUri { uri: String },
    TransferAdmin { new_admin: String },
    Pause,
    Unpause,
}

/// Read-only requests.
#[derive(Clone, Debug, PartialEq, Eq)]
pub enum QueryMsg {
    Balance { address: String },
    TokenInfo,
    Allowance { owner: String, spender: String },
    AllAllowances { owner: String, start_after: Option<String>, limit: Option<u32> },
    AllAccounts { start_after: Option<String>, limit: Option<u32> },
    Config,
    IsMinter { address: String },
    ListMinters { start_after: Option<String>, limit: Option<u32> },
    IsWhitelisted { address: String },
    IsFrozen { address: String },
    ReserveStats,
}

#[derive(Clone, Debug, PartialEq, Eq)]
pub struct ConfigResponse {
    pub admin: String,
    pub total_minted: u128,
    pub total_burned: u128,
    pub circulating_supply: u128,
    pub reserve_uri: String,
    pub whitelist_enabled: bool,
    pub paused: bool,
}

#[derive(Clone, Debug, PartialEq, Eq)]
pub struct IsMinterResponse {
    pub is_minter: bool,
    pub label: Option<String>,
    pub cap: Option<u128>,
    pub lifetime_minted: u128,
}

#[derive(Clone, Debug, PartialEq, Eq)]
pub struct MinterInfo {
    pub address: String,
    pub label: String,
    pub cap: Option<u128>,
    pub lifetime_minted: u128,
}

#[derive(Clone, Debug, PartialEq, Eq)]
pub struct ListMintersResponse {
    pub minters: Vec<MinterInfo>,
}

#[derive(Clone, Copy, Debug, PartialEq, Eq, Structural)]
pub struct ReserveStatsResponse {
    pub total_minted: u128,
    pub total_burned: u128,
    pub circulating_supply: u128,
}

/// Migration parameters (none).
#[derive(Clone, Copy, Debug, PartialEq, Eq, Structural)]
pub struct MigrateMsg {}

} // verus!
