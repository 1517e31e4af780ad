//! Properties of the stablecoin's supply accounting and mint caps.
use super::contract::{
    already_minted, bypasses_pause, burned, entry_after_add, entry_after_remove, flags_after_freeze,
    flags_after_unfreeze, list_limit, minted, minter_info, not_frozen, passes_whitelist,
    reserve_allows, within_cap, after_start, MinterRecord, ReserveVerdict,
};
use crate::common::seq_lt;
use super::msg::ExecuteMsg;
use super::state::{AccountFlags, Config, MinterEntry};
use vstd::prelude::*;

verus! {

/// The supply counters agree with the token supply: what was ever minted through the
/// minter path plus the initial balances, less what was ever burned, is in circulation.
pub open spec fn supply_balanced(config: Config, total_supply: u128, initial_supply: u128) -> bool {
    total_supply + config.total_burned == config.total_minted + initial_supply
}

/// A mint keeps the supply counters in agreement with the token supply.
pub proof fn law_mint_keeps_supply_balanced(
    config: Config,
    total_supply: u128,
    initial_supply: u128,
    amount: u128,
)
    requires
        supply_balanced(config, total_supply, initial_supply),
        total_supply + amount <= u128::MAX,
        config.total_minted + amount <= u128::MAX,
    ensures
        supply_balanced(minted(config, amount), (total_supply + amount) as u128, initial_supply),
{
}

/// A burn, from the burner's own balance or from an allowance, keeps the supply counters
/// in agreement with the token supply.
pub proof fn law_burn_keeps_supply_balanced(
    config: Config,
    total_supply: u128,
    initial_supply: u128,
    amount: u128,
)
    requires
        supply_balanced(config, total_supply, initial_supply),
        amount <= total_supply,
        config.total_burned + amount <= u128::MAX,
    ensures
        supply_balanced(burned(config, amount), (total_supply - amount) as u128, initial_supply),
{
}

/// A capped minter's lifetime minted amount never goes beyond its cap.
pub proof fn law_mint_cap_respected(cap: u128, lifetime: Option<u128>, amount: u128)
    requires
        within_cap(Some(cap), lifetime, amount),
    ensures
        already_minted(lifetime) + amount <= cap,
{
}

/// Whether a request moves tokens or allowances: a transfer, send, mint, burn or
/// allowance change.
pub open spec fn moves_tokens(msg: ExecuteMsg) -> bool {
    ||| msg is Transfer
    ||| msg is TransferFrom
    ||| msg is IncreaseAllowance
    ||| msg is DecreaseAllowance
    ||| msg is Send
    ||| msg is SendFrom
    ||| msg is Mint
    ||| msg is Burn
    ||| msg is BurnFrom
}

/// The emergency pause halts every token movement: no transfer, send, mint, burn or
/// allowance change goes past the pause check.
pub proof fn law_pause_halts_token_movement(msg: ExecuteMsg)
    requires
        moves_tokens(msg),
    ensures
        !bypasses_pause(msg),
{
}

/// Adding a minter and removing it again leaves no registration behind: an address that
/// was no minter and had no cap is back where it started (the lifetime minted amount is
/// not part of the registration and is kept).
pub proof fn law_add_then_remove_minter(entry: MinterEntry, label: String, cap: Option<u128>)
    ensures
        entry_after_remove(entry_after_add(entry, label, cap)) == (MinterEntry {
            label: None,
            cap: None,
        }),
        entry.label is None && entry.cap is None ==> entry_after_remove(
            entry_after_add(entry, label, cap),
        ) == entry,
{
}

/// A frozen account carries its reason and fails `not_frozen`, which `check_movement`,
/// `plan_mint`, `burn` and `check_burn_from` require of every account whose tokens they
/// let move, until it is unfrozen; unfreezing lifts exactly the freeze and keeps the
/// account's whitelist entry.
pub proof fn law_freeze_until_unfrozen(flags: AccountFlags, reason: String)
    ensures
        flags_after_freeze(flags, reason).frozen == Some(reason),
        !not_frozen(flags_after_freeze(flags, reason)),
        not_frozen(flags_after_unfreeze(flags_after_freeze(flags, reason))),
        flags_after_unfreeze(flags_after_freeze(flags, reason)).whitelisted == flags.whitelisted,
{
}

/// The admin's management requests stay open while the contract is paused: pausing and
/// resuming, freezing and unfreezing accounts, adding and removing minters, handing over
/// the admin role, changing the reserve URI and managing the whitelist. Every other
/// request (token movements, setting the aggregator or the reserve enforcement) is
/// stopped by the pause.
pub proof fn law_admin_management_passes_pause(msg: ExecuteMsg)
    ensures
        bypasses_pause(msg) <==> (msg is Pause || msg is Unpause || msg is FreezeAccount
            || msg is UnfreezeAccount || msg is AddMinter || msg is RemoveMinter
            || msg is TransferAdmin || msg is UpdateReserveUri || msg is SetWhitelistEnabled
            || msg is AddToWhitelist || msg is RemoveFromWhitelist),
        !bypasses_pause(msg) <==> (msg is Transfer || msg is TransferFrom
            || msg is IncreaseAllowance || msg is DecreaseAllowance || msg is Send
            || msg is SendFrom || msg is Mint || msg is Burn || msg is BurnFrom
            || msg is SetAggregator || msg is SetPorEnforced),
{
}

/// The mint cap depends on the minter's history only through what it already minted, a
/// minter without a record having minted nothing: an uncapped minter may always mint,
/// and a capped one exactly while its lifetime total stays within the cap (so its first
/// mint goes through whenever the amount is within the cap).
pub proof fn law_cap_counts_what_was_minted(cap: Option<u128>, lifetime: Option<u128>, amount: u128)
    ensures
        already_minted(None) == 0,
        lifetime is Some ==> already_minted(lifetime) == lifetime->0,
        cap is None ==> within_cap(cap, lifetime, amount),
        cap is Some && lifetime is None ==> (within_cap(cap, lifetime, amount) <==> amount
            <= cap->0),
        cap is Some && lifetime is Some ==> (within_cap(cap, lifetime, amount) <==> lifetime->0
            + amount <= cap->0),
{
}

/// The reserve gate lets a mint through exactly when no check was asked for or the
/// aggregator found the reserve sufficient.
pub proof fn law_reserve_gate(verdict: Option<ReserveVerdict>)
    ensures
        verdict is None ==> reserve_allows(verdict),
        verdict is Some ==> (reserve_allows(verdict) <==> verdict->0.valid),
{
}

/// With the whitelist off every account passes it; with it on, exactly the accounts
/// whose whitelist entry is `true` pass.
pub proof fn law_whitelist_gate(config: Config, flags: AccountFlags)
    ensures
        !config.whitelist_enabled ==> passes_whitelist(config, flags),
        config.whitelist_enabled ==> (passes_whitelist(config, flags) <==> flags.whitelisted
            == Some(true)),
{
}

/// The supply counters move by exactly the amount: a mint adds it to the total minted, a
/// burn to the total burned, and nothing else of the configuration changes.
pub proof fn law_counters_move_by_amount(config: Config, amount: u128)
    requires
        config.total_minted + amount <= u128::MAX,
        config.total_burned + amount <= u128::MAX,
    ensures
        minted(config, amount).total_minted == config.total_minted + amount,
        minted(config, amount).total_burned == config.total_burned,
        burned(config, amount).total_burned == config.total_burned + amount,
        burned(config, amount).total_minted == config.total_minted,
        minted(config, amount) == (Config { total_minted: minted(config, amount).total_minted, ..config }),
        burned(config, amount) == (Config { total_burned: burned(config, amount).total_burned, ..config }),
{
}

/// No address comes strictly after itself.
proof fn lemma_seq_lt_irreflexive(a: Seq<char>)
    ensures
        !seq_lt(a, a),
    decreases a.len(),
{
    if a.len() > 0 {
        lemma_seq_lt_irreflexive(a.drop_first());
    }
}

/// A minter page starts strictly after the given address: the start itself is never
/// listed again, and without a start every minter qualifies. Each listed minter shows its
/// own address, label and cap and what it already minted (zero without a record); a page
/// holds 30 minters unless another limit is asked for.
pub proof fn law_minter_pages(start: Option<String>, m: MinterRecord, limit: Option<u32>)
    ensures
        start is None ==> after_start(start)(m),
        start is Some ==> (after_start(start)(m) <==> seq_lt(start->0@, m.address@)),
        start is Some && start->0@ == m.address@ ==> !after_start(start)(m),
        minter_info(m).address == m.address && minter_info(m).label == m.label
            && minter_info(m).cap == m.cap,
        minter_info(m).lifetime_minted == match m.lifetime {
            Some(l) => l,
            None => 0,
        },
        limit is None ==> list_limit(limit) == 30,
        limit is Some ==> list_limit(limit) == limit->0,
{
    lemma_seq_lt_irreflexive(m.address@);
}

/// Registering a minter labels it and sets the given cap, or keeps the stored cap when
/// none is given; removing it clears both. Freezing records the reason and leaves the
/// whitelist entry alone.
pub proof fn law_registration_and_freeze_effects(
    entry: MinterEntry,
    label: String,
    cap: Option<u128>,
    flags: AccountFlags,
    reason: String,
)
    ensures
        entry_after_add(entry, label, cap).label == Some(label),
        cap is Some ==> entry_after_add(entry, label, cap).cap == cap,
        cap is None ==> entry_after_add(entry, label, cap).cap == entry.cap,
        entry_after_remove(entry).label is None && entry_after_remove(entry).cap is None,
        flags_after_freeze(flags, reason).whitelisted == flags.whitelisted,
        flags_after_unfreeze(flags).frozen is None,
        flags_after_unfreeze(flags).whitelisted == flags.whitelisted,
{
}

} // verus!
