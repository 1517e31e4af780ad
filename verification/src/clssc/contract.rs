use super::error::ContractError;
use super::msg::{
    ConfigResponse, ExecuteMsg, InstantiateMsg, IsMinterResponse, ListMintersResponse, MinterInfo,
    ReserveStatsResponse,
};
use super::state::{AccountFlags, Config, MinterEntry};
use crate::common::{
    collect_validated, decimal, first_error, prefix, seq_lt, str_lt, u128_to_string, validated, AddrCheck,
    StdError,
};
use vstd::prelude::*;

verus! {

/// Page size of the minter listing when none is given.
pub const DEFAULT_LIST_LIMIT: u32 = 30;

/// What instantiation writes besides the CW20 token itself.
#[derive(Clone, Debug, PartialEq, Eq)]
pub struct InstantiateOutcome {
    pub config: Config,
    /// Minters to register: (address, label).
    pub minters: Vec<(String, String)>,
    /// Lifetime mint caps to set: (address, cap).
    pub mint_caps: Vec<(String, u128)>,
    /// Addresses to whitelist.
    pub whitelist: Vec<String>,
}

/// Builds the configuration of a new stablecoin.
///
/// `admin` is the validation of the admin address; `token_init` the result of
/// initialising the CW20 token (name, symbol, decimals, balances), given as the error
/// text when it failed; `minters`, `mint_caps` and `whitelist` the validations of the
/// addresses of the corresponding lists of the message, in order; `aggregator` the
/// validation of the aggregator address, when the message gives one.
pub fn instantiate(
    msg: &InstantiateMsg,
    admin: AddrCheck,
    token_init: Result<(), String>,
    minters: Vec<AddrCheck>,
    mint_caps: Vec<AddrCheck>,
    whitelist: Vec<AddrCheck>,
    aggregator: Option<AddrCheck>,
) -> (r: Result<InstantiateOutcome, ContractError>)
    requires
        minters.len() == msg.initial_minters.len(),
        mint_caps.len() == msg.mint_caps.len(),
        whitelist.len() == msg.initial_whitelist.len(),
        aggregator is Some <==> msg.aggregator_addr is Some,
    ensures
        admin is Err ==> r == Err::<InstantiateOutcome, _>(
            ContractError::InvalidAddress { msg: admin->Err_0 },
        ),
        admin is Ok && token_init is Err ==> r == Err::<InstantiateOutcome, _>(
            ContractError::Std(StdError::GenericErr { msg: token_init->Err_0 }),
        ),
        admin is Ok && token_init is Ok && first_error(minters@) is Some ==> r == Err::<
            InstantiateOutcome,
            _,
        >(ContractError::InvalidAddress { msg: first_error(minters@)->0 }),
        admin is Ok && token_init is Ok && first_error(minters@) is None && first_error(
            mint_caps@,
        ) is Some ==> r == Err::<InstantiateOutcome, _>(
            ContractError::InvalidAddress { msg: first_error(mint_caps@)->0 },
        ),
        admin is Ok && token_init is Ok && first_error(minters@) is None && first_error(
            mint_caps@,
        ) is None && first_error(whitelist@) is Some ==> r == Err::<InstantiateOutcome, _>(
            ContractError::InvalidAddress { msg: first_error(whitelist@)->0 },
        ),
        admin is Ok && token_init is Ok && first_error(minters@) is None && first_error(
            mint_caps@,
        ) is None && first_error(whitelist@) is None && aggregator is Some && aggregator->0 is Err
            ==> r == Err::<InstantiateOutcome, _>(
            ContractError::InvalidAddress { msg: aggregator->0->Err_0 },
        ),
        admin is Ok && token_init is Ok && first_error(minters@) is None && first_error(
            mint_caps@,
        ) is None && first_error(whitelist@) is None && !(aggregator is Some && aggregator->0 is Err)
            ==> (r matches Ok(o) && {
            &&& o.config == (Config {
                admin: admin->Ok_0,
                total_minted: 0,
                total_burned: 0,
                reserve_uri: msg.reserve_uri,
                aggregator_addr: match aggregator {
                    Some(c) => Some(c->Ok_0),
                    None => None,
                },
                por_enforced: match msg.por_enforced {
                    Some(b) => b,
                    None => false,
                },
                whitelist_enabled: msg.whitelist_enabled,
                paused: false,
            })
            &&& o.minters.len() == minters.len()
            &&& forall|i: int|
                0 <= i < minters.len() ==> #[trigger] o.minters[i] == (
                    validated(minters@)[i],
                    msg.initial_minters[i].1,
                )
            &&& o.mint_caps.len() == mint_caps.len()
            &&& forall|i: int|
                0 <= i < mint_caps.len() ==> #[trigger] o.mint_caps[i] == (
                    validated(mint_caps@)[i],
                    msg.mint_caps[i].1,
                )
            &&& o.whitelist@ == validated(whitelist@)
        }),
{
    let admin_addr = match admin {
        Ok(a) => a,
        Err(e) => {
            return Err(ContractError::InvalidAddress { msg: e });
        },
    };
    if let Err(e) = token_init {
        return Err(ContractError::Std(StdError::GenericErr { msg: e }));
    }
    let minter_addrs = match collect_validated(&minters) {
        Ok(v) => v,
        Err(e) => {
            return Err(ContractError::InvalidAddress { msg: e });
        },
    };
    let cap_addrs = match collect_validated(&mint_caps) {
        Ok(v) => v,
        Err(e) => {
            return Err(ContractError::InvalidAddress { msg: e });
        },
    };
    let whitelist_addrs = match collect_validated(&whitelist) {
        Ok(v) => v,
        Err(e) => {
            return Err(ContractError::InvalidAddress { msg: e });
        },
    };
    let aggregator_addr = match aggregator {
        Some(Ok(a)) => Some(a),
        Some(Err(e)) => {
            return Err(ContractError::InvalidAddress { msg: e });
        },
        None => None,
    };
    let config = Config {
        admin: admin_addr,
        total_minted: 0,
        total_burned: 0,
        reserve_uri: msg.reserve_uri.clone(),
        aggregator_addr,
        por_enforced: match msg.por_enforced {
            Some(b) => b,
            None => false,
        },
        whitelist_enabled: msg.whitelist_enabled,
        paused: false,
    };
    let mut minter_entries: Vec<(String, String)> = Vec::new();
    let n = minter_addrs.len();
    let mut i: usize = 0;
    while i < n
        invariant
            n == minter_addrs.len(),
            minter_addrs@ == validated(minters@),
            minters.len() == msg.initial_minters.len(),
            i <= n,
            minter_entries.len() == i,
            forall|j: int|
                0 <= j < i ==> #[trigger] minter_entries[j] == (
                    validated(minters@)[j],
                    msg.initial_minters[j].1,
                ),
        decreases n - i,
    {
        minter_entries.push((minter_addrs[i].clone(), msg.initial_minters[i].1.clone()));
        i = i + 1;
    }
    let mut cap_entries: Vec<(String, u128)> = Vec::new();
    let m = cap_addrs.len();
    let mut k: usize = 0;
    while k < m
        invariant
            m == cap_addrs.len(),
            cap_addrs@ == validated(mint_caps@),
            mint_caps.len() == msg.mint_caps.len(),
            k <= m,
            cap_entries.len() == k,
            forall|j: int|
                0 <= j < k ==> #[trigger] cap_entries[j] == (
                    validated(mint_caps@)[j],
                    msg.mint_caps[j].1,
                ),
        decreases m - k,
    {
        cap_entries.push((cap_addrs[k].clone(), msg.mint_caps[k].1));
        k = k + 1;
    }
    Ok(
        InstantiateOutcome {
            config,
            minters: minter_entries,
            mint_caps: cap_entries,
            whitelist: whitelist_addrs,
        },
    )
}

/// The requests that go through while the contract is paused: the admin's
/// account, minter, whitelist and pause management.
pub open spec fn bypasses_pause(msg: ExecuteMsg) -> bool {
    match msg {
        ExecuteMsg::Pause => true,
        ExecuteMsg::Unpause => true,
        ExecuteMsg::FreezeAccount { .. } => true,
        ExecuteMsg::UnfreezeAccount { .. } => true,
        ExecuteMsg::AddMinter { .. } => true,
        ExecuteMsg::RemoveMinter { .. } => true,
        ExecuteMsg::TransferAdmin { .. } => true,
        ExecuteMsg::UpdateReserveUri { .. } => true,
        ExecuteMsg::SetWhitelistEnabled { .. } => true,
        ExecuteMsg::AddToWhitelist { .. } => true,
        ExecuteMsg::RemoveFromWhitelist { .. } => true,
        _ => false,
    }
}

/// Rejects every request but those of `bypasses_pause` while the contract is paused.
pub fn check_pause(config: &Config, msg: &ExecuteMsg) -> (r: Result<(), ContractError>)
    ensures
        config.paused && !bypasses_pause(*msg) ==> r == Err::<(), _>(ContractError::Paused),
        !(config.paused && !bypasses_pause(*msg)) ==> r is Ok,
{
    let admin_op = match msg {
        ExecuteMsg::Pause => true,
        ExecuteMsg::Unpause => true,
        ExecuteMsg::FreezeAccount { .. } => true,
        ExecuteMsg::UnfreezeAccount { .. } => true,
        ExecuteMsg::AddMinter { .. } => true,
        ExecuteMsg::RemoveMinter { .. } => true,
        ExecuteMsg::TransferAdmin { .. } => true,
        ExecuteMsg::UpdateReserveUri { .. } => true,
        ExecuteMsg::SetWhitelistEnabled { .. } => true,
        ExecuteMsg::AddToWhitelist { .. } => true,
        ExecuteMsg::RemoveFromWhitelist { .. } => true,
        _ => false,
    };
    if config.paused && !admin_op {
        return Err(ContractError::Paused);
    }
    Ok(())
}

/// Whether an account may take part in a transfer under the whitelist: always when the
/// whitelist is off, otherwise only with a `true` whitelist entry.
pub open spec fn passes_whitelist(config: Config, flags: AccountFlags) -> bool {
    !config.whitelist_enabled || flags.whitelisted == Some(true)
}

/// Checks that tokens may move from `from` to `to`: neither account is frozen (the
/// sender is checked first) and, when the whitelist is on, both are whitelisted.
pub fn check_transfer_allowed(
    config: &Config,
    from: &String,
    to: &String,
    from_flags: &AccountFlags,
    to_flags: &AccountFlags,
) -> (r: Result<(), ContractError>)
    ensures
        from_flags.frozen is Some ==> (r matches Err(
            ContractError::AccountFrozen { address, reason },
        ) && address@ == from@ && reason == from_flags.frozen->0),
        from_flags.frozen is None && to_flags.frozen is Some ==> (r matches Err(
            ContractError::AccountFrozen { address, reason },
        ) && address@ == to@ && reason == to_flags.frozen->0),
        from_flags.frozen is None && to_flags.frozen is None && !passes_whitelist(
            *config,
            *from_flags,
        ) ==> (r matches Err(ContractError::NotWhitelisted { address }) && address@ == from@),
        from_flags.frozen is None && to_flags.frozen is None && passes_whitelist(
            *config,
            *from_flags,
        ) && !passes_whitelist(*config, *to_flags) ==> (r matches Err(
            ContractError::NotWhitelisted { address },
        ) && address@ == to@),
        from_flags.frozen is None && to_flags.frozen is None && passes_whitelist(
            *config,
            *from_flags,
        ) && passes_whitelist(*config, *to_flags) ==> r is Ok,
{
    if let Some(reason) = &from_flags.frozen {
        return Err(ContractError::AccountFrozen { address: from.clone(), reason: reason.clone() });
    }
    if let Some(reason) = &to_flags.frozen {
        return Err(ContractError::AccountFrozen { address: to.clone(), reason: reason.clone() });
    }
    if config.whitelist_enabled {
        let from_ok = match from_flags.whitelisted {
            Some(b) => b,
            None => false,
        };
        if !from_ok {
            return Err(ContractError::NotWhitelisted { address: from.clone() });
        }
        let to_ok = match to_flags.whitelisted {
            Some(b) => b,
            None => false,
        };
        if !to_ok {
            return Err(ContractError::NotWhitelisted { address: to.clone() });
        }
    }
    Ok(())
}

/// The checks in front of every CW20 movement (transfer, transfer-from, send,
/// send-from): a non-zero amount, valid source and destination addresses (for a plain
/// transfer or send the source is the sender, given as valid) and
/// `check_transfer_allowed`. On success the token movement itself is performed by the
/// CW20 base logic.
pub fn check_movement(
    config: &Config,
    amount: u128,
    from: &AddrCheck,
    to: &AddrCheck,
    from_flags: &AccountFlags,
    to_flags: &AccountFlags,
) -> (r: Result<(), ContractError>)
    ensures
        r is Ok ==> not_frozen(*from_flags) && not_frozen(*to_flags),
        amount == 0 ==> r == Err::<(), _>(ContractError::ZeroAmount),
        amount > 0 && from is Err ==> r == Err::<(), _>(
            ContractError::Std(StdError::GenericErr { msg: from->Err_0 }),
        ),
        amount > 0 && from is Ok && to is Err ==> r == Err::<(), _>(
            ContractError::Std(StdError::GenericErr { msg: to->Err_0 }),
        ),
        amount > 0 && from is Ok && to is Ok ==> ({
            &&& from_flags.frozen is Some ==> (r matches Err(
                ContractError::AccountFrozen { address, reason },
            ) && address@ == from->Ok_0@ && reason == from_flags.frozen->0)
            &&& from_flags.frozen is None && to_flags.frozen is Some ==> (r matches Err(
                ContractError::AccountFrozen { address, reason },
            ) && address@ == to->Ok_0@ && reason == to_flags.frozen->0)
            &&& from_flags.frozen is None && to_flags.frozen is None && !passes_whitelist(
                *config,
                *from_flags,
            ) ==> (r matches Err(ContractError::NotWhitelisted { address }) && address@
                == from->Ok_0@)
            &&& from_flags.frozen is None && to_flags.frozen is None && passes_whitelist(
                *config,
                *from_flags,
            ) && !passes_whitelist(*config, *to_flags) ==> (r matches Err(
                ContractError::NotWhitelisted { address },
            ) && address@ == to->Ok_0@)
            &&& from_flags.frozen is None && to_flags.frozen is None && passes_whitelist(
                *config,
                *from_flags,
            ) && passes_whitelist(*config, *to_flags) ==> r is Ok
        }),
{
    if amount == 0 {
        return Err(ContractError::ZeroAmount);
    }
    let from_addr = match from {
        Ok(a) => a,
        Err(e) => {
            return Err(ContractError::Std(StdError::GenericErr { msg: e.clone() }));
        },
    };
    let to_addr = match to {
        Ok(a) => a,
        Err(e) => {
            return Err(ContractError::Std(StdError::GenericErr { msg: e.clone() }));
        },
    };
    check_transfer_allowed(config, from_addr, to_addr, from_flags, to_flags)
}

/// A reserve check to ask the aggregator before minting.
#[derive(Clone, Debug, PartialEq, Eq)]
pub struct ReserveQuery {
    pub aggregator: String,
    pub mint_amount: u128,
    pub circulating_supply: u128,
}

/// The aggregator's verdict on a reserve check.
#[derive(Clone, Debug, PartialEq, Eq)]
pub struct ReserveVerdict {
    pub valid: bool,
    pub reason: Option<String>,
}

/// A mint that passed the minter, recipient and reserve-configuration checks.
#[derive(Clone, Debug, PartialEq, Eq)]
pub struct MintPlan {
    /// The validated recipient.
    pub recipient: String,
    /// The label of the minting minter.
    pub label: String,
    /// The reserve check to run first, when proof of reserve is enforced.
    pub reserve_query: Option<ReserveQuery>,
}

/// What a completed mint writes.
#[derive(Clone, Debug, PartialEq, Eq)]
pub struct MintOutcome {
    /// The recipient's new balance.
    pub balance: u128,
    /// The token's new total supply.
    pub total_supply: u128,
    /// The configuration with the grown mint counter.
    pub config: Config,
    /// The minter's new lifetime minted amount, when the minter has a cap.
    pub lifetime_minted: Option<u128>,
}

/// Error text when proof of reserve is enforced without an aggregator.
pub open spec fn no_aggregator_msg() -> Seq<char> {
    "PoR enforcement enabled but no aggregator configured"@
}

/// Error text when the aggregator refuses a mint.
pub open spec fn reserve_refusal_msg(reason: Option<String>) -> Seq<char> {
    "PoR check failed: "@ + match reason {
        Some(r) => r@,
        None => "reserve insufficient or stale"@,
    }
}

/// First half of a mint by `sender`: `minter_label` is the sender's minter entry,
/// `recipient` the validation of the recipient address and `recipient_flags` what
/// storage holds for the validated recipient; `total_supply` is the token's supply.
pub fn plan_mint(
    config: &Config,
    amount: u128,
    minter_label: Option<String>,
    recipient: AddrCheck,
    recipient_flags: &AccountFlags,
    total_supply: u128,
) -> (r: Result<MintPlan, ContractError>)
    ensures
        r is Ok ==> not_frozen(*recipient_flags),
        amount == 0 ==> r == Err::<MintPlan, _>(ContractError::ZeroAmount),
        amount > 0 && minter_label is None ==> r == Err::<MintPlan, _>(ContractError::NotMinter),
        amount > 0 && minter_label is Some && recipient is Err ==> r == Err::<MintPlan, _>(
            ContractError::Std(StdError::GenericErr { msg: recipient->Err_0 }),
        ),
        amount > 0 && minter_label is Some && recipient is Ok && recipient_flags.frozen is Some
            ==> (r matches Err(ContractError::AccountFrozen { address, reason }) && address@
            == recipient->Ok_0@ && reason == recipient_flags.frozen->0),
        amount > 0 && minter_label is Some && recipient is Ok && recipient_flags.frozen is None
            && !passes_whitelist(*config, *recipient_flags) ==> (r matches Err(
            ContractError::NotWhitelisted { address },
        ) && address@ == recipient->Ok_0@),
        amount > 0 && minter_label is Some && recipient is Ok && recipient_flags.frozen is None
            && passes_whitelist(*config, *recipient_flags) && config.por_enforced
            && config.aggregator_addr is None ==> (r matches Err(
            ContractError::Std(StdError::GenericErr { msg }),
        ) && msg@ == no_aggregator_msg()),
        amount > 0 && minter_label is Some && recipient is Ok && recipient_flags.frozen is None
            && passes_whitelist(*config, *recipient_flags) && !(config.por_enforced
            && config.aggregator_addr is None) ==> r == Ok::<MintPlan, ContractError>(
            MintPlan {
                recipient: recipient->Ok_0,
                label: minter_label->0,
                reserve_query: if config.por_enforced {
                    Some(
                        ReserveQuery {
                            aggregator: config.aggregator_addr->0,
                            mint_amount: amount,
                            circulating_supply: total_supply,
                        },
                    )
                } else {
                    None
                },
            },
        ),
{
    if amount == 0 {
        return Err(ContractError::ZeroAmount);
    }
    let label = match minter_label {
        Some(l) => l,
        None => {
            return Err(ContractError::NotMinter);
        },
    };
    let rcpt = match recipient {
        Ok(a) => a,
        Err(e) => {
            return Err(ContractError::Std(StdError::GenericErr { msg: e }));
        },
    };
    if let Some(reason) = &recipient_flags.frozen {
        return Err(ContractError::AccountFrozen { address: rcpt, reason: reason.clone() });
    }
    if config.whitelist_enabled {
        let ok = match recipient_flags.whitelisted {
            Some(b) => b,
            None => false,
        };
        if !ok {
            return Err(ContractError::NotWhitelisted { address: rcpt });
        }
    }
    let reserve_query = if config.por_enforced {
        match &config.aggregator_addr {
            Some(aggregator) => Some(
                ReserveQuery {
                    aggregator: aggregator.clone(),
                    mint_amount: amount,
                    circulating_supply: total_supply,
                },
            ),
            None => {
                return Err(
                    ContractError::Std(
                        StdError::GenericErr {
                            msg: String::from_str(
                                "PoR enforcement enabled but no aggregator configured",
                            ),
                        },
                    ),
                );
            },
        }
    } else {
        None
    };
    Ok(MintPlan { recipient: rcpt, label, reserve_query })
}

/// The configuration after `amount` was minted.
pub open spec fn minted(config: Config, amount: u128) -> Config {
    Config { total_minted: (config.total_minted + amount) as u128, ..config }
}

/// The configuration after `amount` was burned.
pub open spec fn burned(config: Config, amount: u128) -> Config {
    Config { total_burned: (config.total_burned + amount) as u128, ..config }
}

/// The minter's lifetime minted amount before this mint.
pub open spec fn already_minted(lifetime: Option<u128>) -> u128 {
    match lifetime {
        Some(l) => l,
        None => 0,
    }
}

/// Whether a mint of `amount` by a minter with `cap` and `lifetime` stays within the cap.
pub open spec fn within_cap(cap: Option<u128>, lifetime: Option<u128>, amount: u128) -> bool {
    match cap {
        Some(c) => already_minted(lifetime) + amount <= c,
        None => true,
    }
}

/// Whether the aggregator's verdict lets the mint proceed.
pub open spec fn reserve_allows(verdict: Option<ReserveVerdict>) -> bool {
    match verdict {
        Some(v) => v.valid,
        None => true,
    }
}

/// Second half of a mint: the aggregator's `verdict` (present exactly when the plan asked
/// for a reserve check), the minter's cap and lifetime minted amount, the recipient's
/// balance and the token's total supply.
pub fn complete_mint(
    config: Config,
    sender: &String,
    amount: u128,
    verdict: Option<ReserveVerdict>,
    cap: Option<u128>,
    lifetime: Option<u128>,
    balance: u128,
    total_supply: u128,
) -> (r: Result<MintOutcome, ContractError>)
    requires
        reserve_allows(verdict) && cap is Some ==> already_minted(lifetime) + amount <= u128::MAX,
        reserve_allows(verdict) && within_cap(cap, lifetime, amount) ==> balance + amount
            <= u128::MAX && total_supply + amount <= u128::MAX && config.total_minted + amount
            <= u128::MAX,
    ensures
        !reserve_allows(verdict) ==> (r matches Err(
            ContractError::Std(StdError::GenericErr { msg }),
        ) && msg@ == reserve_refusal_msg(verdict->0.reason)),
        reserve_allows(verdict) && !within_cap(cap, lifetime, amount) ==> (r matches Err(
            ContractError::MintCapExceeded { minter, cap: c, minted, requested },
        ) && minter@ == sender@ && c@ == decimal(cap->0 as nat) && minted@ == decimal(
            already_minted(lifetime) as nat,
        ) && requested@ == decimal(amount as nat)),
        reserve_allows(verdict) && within_cap(cap, lifetime, amount) ==> r
            == Ok::<MintOutcome, ContractError>(
            MintOutcome {
                balance: (balance + amount) as u128,
                total_supply: (total_supply + amount) as u128,
                config: minted(config, amount),
                lifetime_minted: match cap {
                    Some(_) => Some((already_minted(lifetime) + amount) as u128),
                    None => None,
                },
            },
        ),
{
    if let Some(v) = &verdict {
        if !v.valid {
            let mut msg = String::from_str("PoR check failed: ");
            match &v.reason {
                Some(reason) => msg.append(reason.as_str()),
                None => msg.append("reserve insufficient or stale"),
            }
            return Err(ContractError::Std(StdError::GenericErr { msg }));
        }
    }
    let lifetime_minted = match cap {
        Some(c) => {
            let already: u128 = match lifetime {
                Some(l) => l,
                None => 0,
            };
            if already + amount > c {
                return Err(
                    ContractError::MintCapExceeded {
                        minter: sender.clone(),
                        cap: u128_to_string(c),
                        minted: u128_to_string(already),
                        requested: u128_to_string(amount),
                    },
                );
            }
            Some(already + amount)
        },
        None => None,
    };
    let mut cfg = config;
    cfg.total_minted = cfg.total_minted + amount;
    Ok(
        MintOutcome {
            balance: balance + amount,
            total_supply: total_supply + amount,
            config: cfg,
            lifetime_minted,
        },
    )
}

/// What a burn writes.
#[derive(Clone, Debug, PartialEq, Eq)]
pub struct BurnOutcome {
    /// The burner's new balance.
    pub balance: u128,
    /// The token's new total supply.
    pub total_supply: u128,
    /// The configuration with the grown burn counter.
    pub config: Config,
}

/// Burns `amount` of the sender's own tokens: `frozen` is the sender's freeze reason,
/// `balance` the sender's balance and `total_supply` the token's supply.
pub fn burn(
    config: Config,
    sender: &String,
    amount: u128,
    frozen: Option<String>,
    balance: u128,
    total_supply: u128,
) -> (r: Result<BurnOutcome, ContractError>)
    requires
        amount > 0 && frozen is None && balance >= amount && total_supply >= amount
            ==> config.total_burned + amount <= u128::MAX,
    ensures
        r is Ok ==> frozen is None,
        amount == 0 ==> r == Err::<BurnOutcome, _>(ContractError::ZeroAmount),
        amount > 0 && frozen is Some ==> (r matches Err(
            ContractError::AccountFrozen { address, reason },
        ) && address@ == sender@ && reason == frozen->0),
        amount > 0 && frozen is None && balance < amount ==> r == Err::<BurnOutcome, _>(
            ContractError::Std(StdError::SubOverflow { minuend: balance, subtrahend: amount }),
        ),
        amount > 0 && frozen is None && balance >= amount && total_supply < amount ==> r
            == Err::<BurnOutcome, _>(
            ContractError::Std(
                StdError::SubOverflow { minuend: total_supply, subtrahend: amount },
            ),
        ),
        amount > 0 && frozen is None && balance >= amount && total_supply >= amount ==> r
            == Ok::<BurnOutcome, ContractError>(
            BurnOutcome {
                balance: (balance - amount) as u128,
                total_supply: (total_supply - amount) as u128,
                config: burned(config, amount),
            },
        ),
{
    if amount == 0 {
        return Err(ContractError::ZeroAmount);
    }
    if let Some(reason) = frozen {
        return Err(ContractError::AccountFrozen { address: sender.clone(), reason });
    }
    if balance < amount {
        return Err(
            ContractError::Std(StdError::SubOverflow { minuend: balance, subtrahend: amount }),
        );
    }
    if total_supply < amount {
        return Err(
            ContractError::Std(StdError::SubOverflow { minuend: total_supply, subtrahend: amount }),
        );
    }
    let mut cfg = config;
    cfg.total_burned = cfg.total_burned + amount;
    Ok(BurnOutcome { balance: balance - amount, total_supply: total_supply - amount, config: cfg })
}

/// The checks in front of a burn from an owner's allowance: a non-zero amount, a valid
/// owner address and an owner that is not frozen. Returns the validated owner; the
/// allowance and balance deduction is then performed by the CW20 base logic.
pub fn check_burn_from(amount: u128, owner: &String, validated_owner: AddrCheck, frozen: Option<String>) -> (r:
    Result<String, ContractError>)
    ensures
        r is Ok ==> frozen is None,
        amount == 0 ==> r == Err::<String, _>(ContractError::ZeroAmount),
        amount > 0 && validated_owner is Err ==> r == Err::<String, _>(
            ContractError::Std(StdError::GenericErr { msg: validated_owner->Err_0 }),
        ),
        amount > 0 && validated_owner is Ok && frozen is Some ==> (r matches Err(
            ContractError::AccountFrozen { address, reason },
        ) && address@ == owner@ && reason == frozen->0),
        amount > 0 && validated_owner is Ok && frozen is None ==> r == Ok::<String, ContractError>(
            validated_owner->Ok_0,
        ),
{
    if amount == 0 {
        return Err(ContractError::ZeroAmount);
    }
    let addr = match validated_owner {
        Ok(a) => a,
        Err(e) => {
            return Err(ContractError::Std(StdError::GenericErr { msg: e }));
        },
    };
    if let Some(reason) = frozen {
        return Err(ContractError::AccountFrozen { address: owner.clone(), reason });
    }
    Ok(addr)
}

/// Counts a burn from an allowance once the CW20 base logic has performed it.
pub fn record_burn(config: Config, amount: u128) -> (r: Config)
    requires
        config.total_burned + amount <= u128::MAX,
    ensures
        r == burned(config, amount),
{
    let mut cfg = config;
    cfg.total_burned = cfg.total_burned + amount;
    cfg
}

fn is_admin(config: &Config, sender: &String) -> (r: bool)
    ensures
        r == (sender@ == config.admin@),
{
    *sender == config.admin
}

/// The minter entry of an address after it is registered with `label` and `cap`; without
/// a cap, a cap already stored for the address stays.
pub open spec fn entry_after_add(e: MinterEntry, label: String, cap: Option<u128>) -> MinterEntry {
    MinterEntry {
        label: Some(label),
        cap: match cap {
            Some(c) => Some(c),
            None => e.cap,
        },
    }
}

/// The minter entry of an address after its registration is removed: no label, no cap.
pub open spec fn entry_after_remove(e: MinterEntry) -> MinterEntry {
    MinterEntry { label: None, cap: None }
}

/// Authorises a new minter (admin only); `entry` is what storage holds for the validated
/// address. Returns the address and its new entry.
pub fn add_minter(
    config: &Config,
    sender: &String,
    address: &String,
    validated_address: AddrCheck,
    entry: MinterEntry,
    label: String,
    cap: Option<u128>,
) -> (r: Result<(String, MinterEntry), ContractError>)
    ensures
        sender@ != config.admin@ ==> r == Err::<(String, MinterEntry), _>(
            ContractError::Unauthorized,
        ),
        sender@ == config.admin@ && validated_address is Err ==> r == Err::<
            (String, MinterEntry),
            _,
        >(ContractError::InvalidAddress { msg: validated_address->Err_0 }),
        sender@ == config.admin@ && validated_address is Ok && entry.label is Some ==> (r matches Err(
            ContractError::AlreadyMinter { address: a },
        ) && a@ == address@),
        sender@ == config.admin@ && validated_address is Ok && entry.label is None ==> r == Ok::<
            (String, MinterEntry),
            ContractError,
        >((validated_address->Ok_0, entry_after_add(entry, label, cap))),
{
    if !is_admin(config, sender) {
        return Err(ContractError::Unauthorized);
    }
    let addr = match validated_address {
        Ok(a) => a,
        Err(e) => {
            return Err(ContractError::InvalidAddress { msg: e });
        },
    };
    if entry.label.is_some() {
        return Err(ContractError::AlreadyMinter { address: address.clone() });
    }
    let new_cap = match cap {
        Some(c) => Some(c),
        None => entry.cap,
    };
    Ok((addr, MinterEntry { label: Some(label), cap: new_cap }))
}

/// Revokes a minter and its cap (admin only); `entry` is what storage holds for the
/// validated address. Returns the address and its new, empty entry.
pub fn remove_minter(
    config: &Config,
    sender: &String,
    address: &String,
    validated_address: AddrCheck,
    entry: MinterEntry,
) -> (r: Result<(String, MinterEntry), ContractError>)
    ensures
        sender@ != config.admin@ ==> r == Err::<(String, MinterEntry), _>(
            ContractError::Unauthorized,
        ),
        sender@ == config.admin@ && validated_address is Err ==> r == Err::<
            (String, MinterEntry),
            _,
        >(ContractError::InvalidAddress { msg: validated_address->Err_0 }),
        sender@ == config.admin@ && validated_address is Ok && entry.label is None ==> (r matches Err(
            ContractError::NotAMinter { address: a },
        ) && a@ == address@),
        sender@ == config.admin@ && validated_address is Ok && entry.label is Some ==> r == Ok::<
            (String, MinterEntry),
            ContractError,
        >((validated_address->Ok_0, entry_after_remove(entry))),
{
    if !is_admin(config, sender) {
        return Err(ContractError::Unauthorized);
    }
    let addr = match validated_address {
        Ok(a) => a,
        Err(e) => {
            return Err(ContractError::InvalidAddress { msg: e });
        },
    };
    if entry.label.is_none() {
        return Err(ContractError::NotAMinter { address: address.clone() });
    }
    Ok((addr, MinterEntry { label: None, cap: None }))
}

/// Whitelists an address (admin only). Returns the address to whitelist.
pub fn add_to_whitelist(config: &Config, sender: &String, validated_address: AddrCheck) -> (r:
    Result<String, ContractError>)
    ensures
        sender@ != config.admin@ ==> r == Err::<String, _>(ContractError::Unauthorized),
        sender@ == config.admin@ && validated_address is Err ==> r == Err::<String, _>(
            ContractError::InvalidAddress { msg: validated_address->Err_0 },
        ),
        sender@ == config.admin@ && validated_address is Ok ==> r == Ok::<String, ContractError>(
            validated_address->Ok_0,
        ),
{
    if !is_admin(config, sender) {
        return Err(ContractError::Unauthorized);
    }
    match validated_address {
        Ok(a) => Ok(a),
        Err(e) => Err(ContractError::InvalidAddress { msg: e }),
    }
}

/// Removes an address from the whitelist (admin only); `exists` tells whether the
/// validated address has a whitelist entry. Returns the address to remove.
pub fn remove_from_whitelist(
    config: &Config,
    sender: &String,
    address: &String,
    validated_address: AddrCheck,
    exists: bool,
) -> (r: Result<String, ContractError>)
    ensures
        sender@ != config.admin@ ==> r == Err::<String, _>(ContractError::Unauthorized),
        sender@ == config.admin@ && validated_address is Err ==> r == Err::<String, _>(
            ContractError::InvalidAddress { msg: validated_address->Err_0 },
        ),
        sender@ == config.admin@ && validated_address is Ok && !exists ==> (r matches Err(
            ContractError::NotInWhitelist { address: a },
        ) && a@ == address@),
        sender@ == config.admin@ && validated_address is Ok && exists ==> r == Ok::<
            String,
            ContractError,
        >(validated_address->Ok_0),
{
    if !is_admin(config, sender) {
        return Err(ContractError::Unauthorized);
    }
    let addr = match validated_address {
        Ok(a) => a,
        Err(e) => {
            return Err(ContractError::InvalidAddress { msg: e });
        },
    };
    if !exists {
        return Err(ContractError::NotInWhitelist { address: address.clone() });
    }
    Ok(addr)
}

/// Whether an account is free of a freeze.
pub open spec fn not_frozen(flags: AccountFlags) -> bool {
    flags.frozen is None
}

/// An account's flags after it is frozen for `reason` (an earlier reason is replaced).
pub open spec fn flags_after_freeze(flags: AccountFlags, reason: String) -> AccountFlags {
    AccountFlags { frozen: Some(reason), ..flags }
}

/// An account's flags after its freeze is lifted.
pub open spec fn flags_after_unfreeze(flags: AccountFlags) -> AccountFlags {
    AccountFlags { frozen: None, ..flags }
}

/// Freezes an account (admin only); `flags` is what storage holds for the validated
/// address. Returns the address and its new flags.
pub fn freeze_account(
    config: &Config,
    sender: &String,
    validated_address: AddrCheck,
    flags: AccountFlags,
    reason: String,
) -> (r: Result<(String, AccountFlags), ContractError>)
    ensures
        sender@ != config.admin@ ==> r == Err::<(String, AccountFlags), _>(
            ContractError::Unauthorized,
        ),
        sender@ == config.admin@ && validated_address is Err ==> r == Err::<
            (String, AccountFlags),
            _,
        >(ContractError::InvalidAddress { msg: validated_address->Err_0 }),
        sender@ == config.admin@ && validated_address is Ok ==> r == Ok::<
            (String, AccountFlags),
            ContractError,
        >((validated_address->Ok_0, flags_after_freeze(flags, reason))),
{
    if !is_admin(config, sender) {
        return Err(ContractError::Unauthorized);
    }
    match validated_address {
        Ok(a) => Ok((a, AccountFlags { frozen: Some(reason), whitelisted: flags.whitelisted })),
        Err(e) => Err(ContractError::InvalidAddress { msg: e }),
    }
}

/// Unfreezes an account (admin only); `flags` is what storage holds for the validated
/// address. Returns the address and its new flags.
pub fn unfreeze_account(config: &Config, sender: &String, validated_address: AddrCheck, flags: AccountFlags) -> (r:
    Result<(String, AccountFlags), ContractError>)
    ensures
        sender@ != config.admin@ ==> r == Err::<(String, AccountFlags), _>(
            ContractError::Unauthorized,
        ),
        sender@ == config.admin@ && validated_address is Err ==> r == Err::<
            (String, AccountFlags),
            _,
        >(ContractError::InvalidAddress { msg: validated_address->Err_0 }),
        sender@ == config.admin@ && validated_address is Ok ==> r == Ok::<
            (String, AccountFlags),
            ContractError,
        >((validated_address->Ok_0, flags_after_unfreeze(flags))),
{
    if !is_admin(config, sender) {
        return Err(ContractError::Unauthorized);
    }
    match validated_address {
        Ok(a) => Ok((a, AccountFlags { frozen: None, whitelisted: flags.whitelisted })),
        Err(e) => Err(ContractError::InvalidAddress { msg: e }),
    }
}

/// Sets the reserve aggregator (admin only).
pub fn set_aggregator(config: Config, sender: &String, validated_address: AddrCheck) -> (r: Result<
    Config,
    ContractError,
>)
    ensures
        sender@ != config.admin@ ==> r == Err::<Config, _>(ContractError::Unauthorized),
        sender@ == config.admin@ && validated_address is Err ==> r == Err::<Config, _>(
            ContractError::InvalidAddress { msg: validated_address->Err_0 },
        ),
        sender@ == config.admin@ && validated_address is Ok ==> r == Ok::<Config, ContractError>(
            Config { aggregator_addr: Some(validated_address->Ok_0), ..config },
        ),
{
    if !is_admin(&config, sender) {
        return Err(ContractError::Unauthorized);
    }
    match validated_address {
        Ok(a) => {
            let mut cfg = config;
            cfg.aggregator_addr = Some(a);
            Ok(cfg)
        },
        Err(e) => Err(ContractError::InvalidAddress { msg: e }),
    }
}

/// Hands the admin role to another address (admin only).
pub fn transfer_admin(config: Config, sender: &String, validated_address: AddrCheck) -> (r: Result<
    Config,
    ContractError,
>)
    ensures
        sender@ != config.admin@ ==> r == Err::<Config, _>(ContractError::Unauthorized),
        sender@ == config.admin@ && validated_address is Err ==> r == Err::<Config, _>(
            ContractError::InvalidAddress { msg: validated_address->Err_0 },
        ),
        sender@ == config.admin@ && validated_address is Ok ==> r == Ok::<Config, ContractError>(
            Config { admin: validated_address->Ok_0, ..config },
        ),
{
    if !is_admin(&config, sender) {
        return Err(ContractError::Unauthorized);
    }
    match validated_address {
        Ok(a) => {
            let mut cfg = config;
            cfg.admin = a;
            Ok(cfg)
        },
        Err(e) => Err(ContractError::InvalidAddress { msg: e }),
    }
}

/// Turns the transfer whitelist on or off (admin only).
pub fn set_whitelist_enabled(config: Config, sender: &String, enabled: bool) -> (r: Result<Config, ContractError>)
    ensures
        sender@ != config.admin@ ==> r == Err::<Config, _>(ContractError::Unauthorized),
        sender@ == config.admin@ ==> r == Ok::<Config, ContractError>(Config { whitelist_enabled: enabled, ..config }),
{
    if !is_admin(&config, sender) {
        return Err(ContractError::Unauthorized);
    }
    let mut cfg = config;
    cfg.whitelist_enabled = enabled;
    Ok(cfg)
}

/// Turns proof-of-reserve gating of mints on or off (admin only).
pub fn set_por_enforced(config: Config, sender: &String, enforced: bool) -> (r: Result<Config, ContractError>)
    ensures
        sender@ != config.admin@ ==> r == Err::<Config, _>(ContractError::Unauthorized),
        sender@ == config.admin@ ==> r == Ok::<Config, ContractError>(Config { por_enforced: enforced, ..config }),
{
    if !is_admin(&config, sender) {
        return Err(ContractError::Unauthorized);
    }
    let mut cfg = config;
    cfg.por_enforced = enforced;
    Ok(cfg)
}

/// Replaces the proof-of-reserve URI (admin only).
pub fn update_reserve_uri(config: Config, sender: &String, uri: String) -> (r: Result<Config, ContractError>)
    ensures
        sender@ != config.admin@ ==> r == Err::<Config, _>(ContractError::Unauthorized),
        sender@ == config.admin@ ==> r == Ok::<Config, ContractError>(Config { reserve_uri: uri, ..config }),
{
    if !is_admin(&config, sender) {
        return Err(ContractError::Unauthorized);
    }
    let mut cfg = config;
    cfg.reserve_uri = uri;
    Ok(cfg)
}

/// Sets the emergency pause (admin only).
pub fn set_paused(config: Config, sender: &String, paused: bool) -> (r: Result<Config, ContractError>)
    ensures
        sender@ != config.admin@ ==> r == Err::<Config, _>(ContractError::Unauthorized),
        sender@ == config.admin@ ==> r == Ok::<Config, ContractError>(Config { paused: paused, ..config }),
{
    if !is_admin(&config, sender) {
        return Err(ContractError::Unauthorized);
    }
    let mut cfg = config;
    cfg.paused = paused;
    Ok(cfg)
}

/// The configuration and supply as a query answer.
pub fn query_config(config: Config, total_supply: u128) -> (r: ConfigResponse)
    ensures
        r == (ConfigResponse {
            admin: config.admin,
            total_minted: config.total_minted,
            total_burned: config.total_burned,
            circulating_supply: total_supply,
            reserve_uri: config.reserve_uri,
            whitelist_enabled: config.whitelist_enabled,
            paused: config.paused,
        }),
{
    ConfigResponse {
        admin: config.admin,
        total_minted: config.total_minted,
        total_burned: config.total_burned,
        circulating_supply: total_supply,
        reserve_uri: config.reserve_uri,
        whitelist_enabled: config.whitelist_enabled,
        paused: config.paused,
    }
}

/// What storage holds for one address, as a minter query answer.
pub fn query_is_minter(label: Option<String>, cap: Option<u128>, lifetime: Option<u128>) -> (r:
    IsMinterResponse)
    ensures
        r == (IsMinterResponse {
            is_minter: label is Some,
            label,
            cap,
            lifetime_minted: already_minted(lifetime),
        }),
{
    let is_minter = label.is_some();
    let lifetime_minted: u128 = match lifetime {
        Some(l) => l,
        None => 0,
    };
    IsMinterResponse { is_minter, label, cap, lifetime_minted }
}

/// Supply counters as a query answer.
pub fn query_reserve_stats(config: &Config, total_supply: u128) -> (r: ReserveStatsResponse)
    ensures
        r == (ReserveStatsResponse {
            total_minted: config.total_minted,
            total_burned: config.total_burned,
            circulating_supply: total_supply,
        }),
{
    ReserveStatsResponse {
        total_minted: config.total_minted,
        total_burned: config.total_burned,
        circulating_supply: total_supply,
    }
}

/// One minter as storage holds it.
#[derive(Clone, Debug, PartialEq, Eq)]
pub struct MinterRecord {
    pub address: String,
    pub label: String,
    pub cap: Option<u128>,
    pub lifetime: Option<u128>,
}

/// Minters strictly after `start` in address order (all of them without a start).
pub open spec fn after_start(start: Option<String>) -> spec_fn(MinterRecord) -> bool {
    |m: MinterRecord|
        match start {
            Some(s) => seq_lt(s@, m.address@),
            None => true,
        }
}

/// A minter record as a listing entry.
pub open spec fn minter_info(m: MinterRecord) -> MinterInfo {
    MinterInfo {
        address: m.address,
        label: m.label,
        cap: m.cap,
        lifetime_minted: already_minted(m.lifetime),
    }
}

/// The page size of a listing.
pub open spec fn list_limit(limit: Option<u32>) -> nat {
    match limit {
        Some(l) => l as nat,
        None => DEFAULT_LIST_LIMIT as nat,
    }
}

/// Lists minters: `records` are all minters in ascending address order and `start_after`
/// the validation of the optional start address. The answer holds the first page of the
/// minters after the start.
pub fn list_minters(records: &Vec<MinterRecord>, start_after: Option<AddrCheck>, limit: Option<u32>) -> (r:
    Result<ListMintersResponse, StdError>)
    ensures
        start_after is Some && start_after->0 is Err ==> r == Err::<ListMintersResponse, _>(
            StdError::GenericErr { msg: start_after->0->Err_0 },
        ),
        !(start_after is Some && start_after->0 is Err) ==> (r matches Ok(resp) && resp.minters@
            == prefix(
            records@.filter(
                after_start(
                    match start_after {
                        Some(c) => Some(c->Ok_0),
                        None => None,
                    },
                ),
            ),
            list_limit(limit),
        ).map_values(|m: MinterRecord| minter_info(m))),
{
    let start: Option<String> = match start_after {
        Some(Ok(a)) => Some(a),
        Some(Err(e)) => {
            return Err(StdError::GenericErr { msg: e });
        },
        None => None,
    };
    let l: usize = match limit {
        Some(v) => v as usize,
        None => DEFAULT_LIST_LIMIT as usize,
    };
    let ghost p = after_start(start);
    let mut out: Vec<MinterInfo> = Vec::new();
    let n = records.len();
    let mut i: usize = 0;
    while i < n
        invariant
            n == records.len(),
            i <= n,
            l == list_limit(limit),
            p == after_start(start),
            out@ == prefix(records@.take(i as int).filter(p), l as nat).map_values(
                |m: MinterRecord| minter_info(m),
            ),
        decreases n - i,
    {
        let rec = &records[i];
        let keep = match &start {
            Some(s) => str_lt(s, &rec.address),
            None => true,
        };
        proof {
            records@.take(i as int).lemma_filter_push(*rec, p);
            assert(records@.take(i + 1) =~= records@.take(i as int).push(*rec));
            assert(keep == p(*rec));
        }
        let ghost f = records@.take(i as int).filter(p);
        if keep && out.len() < l {
            let lifetime_minted: u128 = match rec.lifetime {
                Some(v) => v,
                None => 0,
            };
            out.push(
                MinterInfo {
                    address: rec.address.clone(),
                    label: rec.label.clone(),
                    cap: rec.cap,
                    lifetime_minted,
                },
            );
            proof {
                assert(f.len() < l);
                assert(prefix(f.push(*rec), l as nat) =~= f.push(*rec));
                assert(prefix(f, l as nat) =~= f);
            }
            assert(out@ =~= prefix(records@.take(i + 1).filter(p), l as nat).map_values(
                |m: MinterRecord| minter_info(m),
            ));
        } else {
            proof {
                if keep {
                    assert(f.len() >= l);
                    assert(prefix(f.push(*rec), l as nat) =~= prefix(f, l as nat));
                }
            }
        }
        i = i + 1;
    }
    assert(records@.take(n as int) =~= records@);
    Ok(ListMintersResponse { minters: out })
}

} // verus!
