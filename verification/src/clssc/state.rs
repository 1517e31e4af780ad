use vstd::prelude::*;

verus! {

/// Contract configuration and supply counters.
#[derive(Clone, Debug, PartialEq, Eq)]
pub struct Config {
    /// Can manage minters, the whitelist, frozen accounts and the reserve URI.
    pub admin: String,
    /// Total ever minted through the minter path.
    pub total_minted: u128,
    /// Total ever burned.
    pub total_burned: u128,
    /// URI of the proof-of-reserve feed.
    pub reserve_uri: String,
    /// On-chain reserve aggregator consulted before each mint.
    pub aggregator_addr: Option<String>,
    /// Whether mints are gated by the reserve aggregator.
    pub por_enforced: bool,
    /// Whether transfers are restricted to whitelisted addresses.
    pub whitelist_enabled: bool,
    /// Emergency stop.
    pub paused: bool,
}

/// What the contract's storage says of one account.
#[derive(Clone, Debug, PartialEq, Eq)]
pub struct AccountFlags {
    /// The freeze reason, when the account is frozen.
    pub frozen: Option<String>,
    /// The whitelist entry of the account, when there is one.
    pub whitelisted: Option<bool>,
}

/// What storage holds of one address's minter registration.
#[derive(Clone, Debug, PartialEq, Eq)]
pub struct MinterEntry {
    /// The minter label, when the address is a minter.
    pub label: Option<String>,
    /// The lifetime mint cap, when one is set.
    pub cap: Option<u128>,
}

} // verus!
