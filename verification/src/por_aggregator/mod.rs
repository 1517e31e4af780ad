//! Proof-of-reserve aggregator: oracle relayers submit attested reserve amounts, rounds
//! are finalised at the median once enough submissions arrive, and stablecoin contracts
//! ask whether a mint keeps circulating supply within the attested reserve.
pub mod contract;
pub mod error;
pub mod laws;
pub mod msg;
pub mod state;
