//! Verified core of the Amitis Network CosmWasm contracts.
use vstd::prelude::*;

pub mod amitis_swap;
pub mod clssc;
pub mod common;
pub mod math;
pub mod meridian_factory;
pub mod por_aggregator;
pub mod por_onchain;

verus! {

} // verus!
