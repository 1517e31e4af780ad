//! Meridian factory: registers stablecoin issuers, lets approved issuers deploy CLSSC
//! stablecoins, and keeps per-issuer and per-deployment mint, burn and fee statistics.
pub mod contract;
pub mod error;
pub mod laws;
pub mod msg;
pub mod state;
