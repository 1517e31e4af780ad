use crate::common::StdError;
use vstd::prelude::*;

verus! {

/// Errors of the stablecoin.
#[derive(Clone, Debug, PartialEq, Eq)]
pub enum ContractError {
    Std(StdError),
    Unauthorized,
    NotMinter,
    Paused,
    AccountFrozen { address: String, reason: String },
    NotWhitelisted { address: String },
    InsufficientBalance { have: String, need: String },
    MintCapExceeded { minter: String, cap: String, minted: String, requested: String },
    AlreadyMinter { address: String },
    NotAMinter { address: String },
    AlreadyWhitelisted { address: String },
    NotInWhitelist { address: String },
    AlreadyFrozen { address: String },
    NotFrozen { address: String },
    InvalidAddress { msg: String },
    ZeroAmount,
    Overflow,
}

} // verus!
