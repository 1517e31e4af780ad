use crate::common::StdError;
use vstd::prelude::*;

verus! {

/// Errors of the aggregator.
#[derive(Clone, Debug, PartialEq, Eq)]
pub enum ContractError {
    Std(StdError),
    Unauthorized,
    NotOracle { address: String },
    OracleAlreadyExists { address: String },
    Paused,
    StaleData { age_secs: u64, threshold_secs: u64 },
    Uninitialized,
    ExceedsReserve { circulating: String, mint_amount: String, reserve: String },
    AlreadySubmitted { address: String },
    InvalidAddress { msg: String },
    ZeroAmount,
}

} // verus!
