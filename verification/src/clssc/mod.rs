//! CLSSC, the closed-loop stablecoin: a CW20 token whose minting is restricted to
//! authorised minters (optionally capped and gated by a proof-of-reserve check), with
//! frozen accounts, an optional transfer whitelist and an emergency pause.
pub mod contract;
pub mod error;
pub mod laws;
pub mod msg;
pub mod state;
