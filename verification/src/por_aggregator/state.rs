use vstd::prelude::*;

verus! {

/// Status of a reserve feed.
#[derive(Clone, Copy, Debug, PartialEq, Eq, Structural)]
pub enum ReserveStatus {
    /// Feed is live and fresh.
    Active,
    /// Feed has not updated within the staleness threshold; minting is blocked.
    Stale,
    /// The admin has paused this feed.
    Paused,
    /// Feed has never received a value.
    Uninitialized,
}

/// Aggregator configuration.
#[derive(Clone, Debug, PartialEq, Eq)]
pub struct Config {
    /// Admin: can add or remove oracles, set thresholds, pause.
    pub admin: String,
    /// Factory address, allowed to query status when gating deployments.
    pub factory: Option<String>,
    /// Seconds after which a feed is considered stale.
    pub staleness_threshold_secs: u64,
    /// Number of oracle submissions that finalise a round.
    pub min_submissions: u64,
    /// Whether the aggregator is paused.
    pub paused: bool,
    /// What the aggregator tracks.
    pub description: String,
    /// Currency of the reserve value (e.g. "USD").
    pub denomination: String,
}

/// One finalised round of reserve data.
#[derive(Clone, Copy, Debug, PartialEq, Eq, Structural)]
pub struct RoundData {
    pub round_id: u64,
    /// Attested reserve amount in the smallest denomination unit.
    pub reserve_amount: u128,
    /// Block time (seconds) at which the round started.
    pub started_at: u64,
    /// Block time (seconds) at which the round was finalised.
    pub updated_at: u64,
    pub block_height: u64,
    /// Number of oracle submissions in the round (0 for an admin override).
    pub submission_count: u64,
    pub status: ReserveStatus,
}

/// A pending submission of one oracle for the current round.
#[derive(Clone, Debug, PartialEq, Eq)]
pub struct OracleSubmission {
    pub oracle: String,
    pub value: u128,
    pub timestamp: u64,
}

} // verus!
