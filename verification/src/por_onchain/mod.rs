//! On-chain reserve verifier: sums an issuer's CW20 reserve balances and reports the
//! total to the reserve aggregator.
pub mod contract;
pub mod error;
pub mod laws;
pub mod msg;
pub mod state;
