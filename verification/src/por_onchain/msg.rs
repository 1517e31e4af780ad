use super::state::ReserveSource;
use vstd::prelude::*;

verus! {

/// Parameters of a new verifier.
#[derive(Clone, Debug, PartialEq, Eq)]
pub struct InstantiateMsg {
    pub admin: String,
    pub aggregator_addr: String,
    pub issuer_addr: String,
    pub description: String,
    pub initial_sources: Vec<ReserveSource>,
}

/// Requests that change the verifier.
#[derive(Clone, Debug, PartialEq, Eq)]
pub enum ExecuteMsg {
    /// Query all active balances and report the total (callable by anyone).
    Snapshot,
    AddSource { source: ReserveSource },
    /// Deactivate a source.
    RemoveSource { id: String },
    UpdateAggregator { aggregator_addr: String },
    TransferAdmin { new_admin: String },
}

/// Read-only requests.
#[derive(Clone, Debug, PartialEq, Eq)]
pub enum QueryMsg {
    Config,
    Sources,
    TotalReserve,
    Source { id: String },
}

/// The live total reserve across active sources.
#[derive(Clone, Debug, PartialEq, Eq)]
pub struct TotalReserveResponse {
    pub total: u128,
    pub sources: Vec<ReserveSourceBalance>,
    pub snapshot_height: u64,
}

/// One active source with its live balance.
#[derive(Clone, Debug, PartialEq, Eq)]
pub struct ReserveSourceBalance {
    pub id: String,
    pub label: String,
    pub token_contract: String,
    pub balance: u128,
}

/// Migration parameters (none).
#[derive(Clone, Copy, Debug, PartialEq, Eq, Structural)]
pub struct MigrateMsg {}

} // verus!
