use crate::common::StdError;
use vstd::prelude::*;

verus! {

/// Errors of the swap.
#[derive(Clone, Debug, PartialEq, Eq)]
pub enum ContractError {
    Std(StdError),
    Paused,
    Unauthorized,
    NoFunds,
    MultipleFunds,
    UnsupportedDenom { denom: String },
    InsufficientReserve { need: String, have: String },
    SlippageExceeded { min: String, got: String },
    PriceOutOfBounds { price: u64, floor: u64, ceiling: u64 },
    ZeroAmount,
    Overflow,
}

} // verus!
