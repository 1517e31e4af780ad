use crate::common::StdError;
use vstd::prelude::*;

verus! {

/// Errors of the verifier.
#[derive(Clone, Debug, PartialEq, Eq)]
pub enum ContractError {
    Std(StdError),
    Unauthorized,
    InvalidAddress { msg: String },
    SourceNotFound { id: String },
}

} // verus!
