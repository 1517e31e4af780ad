use crate::common::StdError;
use vstd::prelude::*;

verus! {

/// Errors of the factory.
#[derive(Clone, Debug, PartialEq, Eq)]
pub enum ContractError {
    Std(StdError),
    Unauthorized,
    RegistrationsClosed,
    IssuerNotFound { address: String },
    IssuerNotApproved { address: String, status: String },
    IssuerAlreadyRegistered { address: String },
    DeploymentNotFound { id: u64 },
    ContractNotFound { addr: String },
    MissingReserveUri,
    SymbolTaken { symbol: String },
    InvalidBps { bps: u64 },
    InvalidAddress { msg: String },
    ZeroAmount,
    InstantiationFailed { msg: String },
    UnauthorizedCallback,
}

} // verus!
