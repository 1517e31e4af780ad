use super::error::ContractError;
use super::msg::{InstantiateMsg, ListOraclesResponse, MintCheckResponse, OracleInfo};
use super::state::{Config, OracleSubmission, ReserveStatus, RoundData};
use crate::common::{decimal, u128_to_string, AddrCheck, StdError};
use crate::math::{sort_amounts, sorted_amounts};
use vstd::prelude::*;

verus! {

/// Staleness threshold used when none is given (24 hours).
pub const DEFAULT_STALENESS_SECS: u64 = 86400;

/// Submissions per round used when none is given.
pub const DEFAULT_MIN_SUBMISSIONS: u64 = 1;

/// Number of finalised rounds that the history keeps.
pub const MAX_HISTORY: u64 = 100;

/// Number of history rounds a history query returns when no limit is given.
pub const DEFAULT_HISTORY_LIMIT: u32 = 20;

/// What instantiation writes: the configuration, the initial round counter and the
/// validated oracle relayers with their labels.
#[derive(Clone, Debug, PartialEq, Eq)]
pub struct InstantiateOutcome {
    pub config: Config,
    pub round_id: u64,
    pub oracles: Vec<(String, String)>,
}

/// A round that a submission finalised, and the old history round it evicts.
#[derive(Clone, Debug, PartialEq, Eq)]
pub struct FinalizedRound {
    pub round: RoundData,
    pub evicted_round: Option<u64>,
}

/// What an accepted submission writes.
#[derive(Clone, Debug, PartialEq, Eq)]
pub struct SubmitOutcome {
    /// The submission recorded for the sender.
    pub submission: OracleSubmission,
    /// Pending submissions including this one.
    pub submission_count: u64,
    /// The finalised round, when the submission completes one; the pending
    /// submissions are then cleared.
    pub finalized: Option<FinalizedRound>,
}

/// The values of the pending submissions followed by the new one.
pub open spec fn submitted_values(pending: Seq<OracleSubmission>, amount: u128) -> Seq<u128> {
    pending.map_values(|s: OracleSubmission| s.value).push(amount)
}

/// The median of a non-empty sequence of amounts: the element at index `len / 2` of its
/// ascending arrangement (the upper median for an even count).
pub open spec fn median(vals: Seq<u128>) -> u128 {
    sorted_amounts(vals)[vals.len() as int / 2]
}

/// The history round evicted when round `round_id` is archived.
pub open spec fn evicted_round(round_id: u64) -> Option<u64> {
    if round_id > MAX_HISTORY {
        Some((round_id - MAX_HISTORY) as u64)
    } else {
        None
    }
}

fn is_admin(config: &Config, sender: &String) -> (r: bool)
    ensures
        r == (sender@ == config.admin@),
{
    *sender == config.admin
}

/// Builds the configuration of a new aggregator from the validated addresses.
pub fn instantiate(
    msg: &InstantiateMsg,
    admin: AddrCheck,
    factory: Option<AddrCheck>,
    oracles: Vec<AddrCheck>,
) -> (r: Result<InstantiateOutcome, ContractError>)
    requires
        factory.is_some() == msg.factory.is_some(),
        oracles.len() == msg.initial_oracles.len(),
    ensures
        admin matches Err(e) ==> r == Err::<InstantiateOutcome, _>(
            ContractError::InvalidAddress { msg: e },
        ),
        admin is Ok && factory is Some && factory->0 is Err ==> r == Err::<InstantiateOutcome, _>(
            ContractError::InvalidAddress { msg: factory->0->Err_0 },
        ),
        admin is Ok && !(factory is Some && factory->0 is Err) && (exists|i: int|
            0 <= i < oracles.len() && oracles[i] is Err) ==> (r matches Err(
            ContractError::InvalidAddress { msg },
        ) && exists|i: int|
            0 <= i < oracles.len() && oracles[i] == Err::<String, String>(msg) && forall|j: int|
                0 <= j < i ==> oracles[j] is Ok),
        admin is Ok && !(factory is Some && factory->0 is Err) && (forall|i: int|
            0 <= i < oracles.len() ==> oracles[i] is Ok) ==> (r matches Ok(o) && o.config
            == (Config {
            admin: admin->Ok_0,
            factory: match factory {
                Some(f) => Some(f->Ok_0),
                None => None,
            },
            staleness_threshold_secs: match msg.staleness_threshold_secs {
                Some(v) => v,
                None => DEFAULT_STALENESS_SECS,
            },
            min_submissions: match msg.min_submissions {
                Some(v) => v,
                None => DEFAULT_MIN_SUBMISSIONS,
            },
            paused: false,
            description: msg.description,
            denomination: msg.denomination,
        }) && o.round_id == 0 && o.oracles.len() == oracles.len() && forall|i: int|
            0 <= i < oracles.len() ==> #[trigger] o.oracles[i] == (
                oracles[i]->Ok_0,
                msg.initial_oracles[i].1,
            )),
{
    let admin_addr = match &admin {
        Ok(a) => a.clone(),
        Err(e) => {
            return Err(ContractError::InvalidAddress { msg: e.clone() });
        },
    };
    let factory_addr = match &factory {
        Some(Ok(f)) => Some(f.clone()),
        Some(Err(e)) => {
            return Err(ContractError::InvalidAddress { msg: e.clone() });
        },
        None => None,
    };
    let staleness_threshold_secs = match msg.staleness_threshold_secs {
        Some(v) => v,
        None => DEFAULT_STALENESS_SECS,
    };
    let min_submissions = match msg.min_submissions {
        Some(v) => v,
        None => DEFAULT_MIN_SUBMISSIONS,
    };
    let config = Config {
        admin: admin_addr,
        factory: factory_addr,
        staleness_threshold_secs,
        min_submissions,
        paused: false,
        description: msg.description.clone(),
        denomination: msg.denomination.clone(),
    };
    let mut registered: Vec<(String, String)> = Vec::new();
    let n = oracles.len();
    let mut i: usize = 0;
    while i < n
        invariant
            n == oracles.len(),
            oracles.len() == msg.initial_oracles.len(),
            admin is Ok,
            !(factory is Some && factory->0 is Err),
            i <= n,
            registered.len() == i,
            forall|j: int| 0 <= j < i ==> oracles[j] is Ok,
            forall|j: int|
                0 <= j < i ==> #[trigger] registered[j] == (
                    oracles[j]->Ok_0,
                    msg.initial_oracles[j].1,
                ),
        decreases n - i,
    {
        match &oracles[i] {
            Ok(a) => {
                registered.push((a.clone(), msg.initial_oracles[i].1.clone()));
            },
            Err(e) => {
                return Err(ContractError::InvalidAddress { msg: e.clone() });
            },
        }
        i = i + 1;
    }
    Ok(InstantiateOutcome { config, round_id: 0, oracles: registered })
}

/// Handles a reserve attestation from an oracle relayer.
///
/// `pending` holds the submissions already pending for the current round; the new one
/// is added to them, and the round is finalised at their median once there are at least
/// `min_submissions` of them.
pub fn submit_reserve(
    config: &Config,
    sender: &String,
    sender_is_oracle: bool,
    already_submitted: bool,
    pending: &Vec<OracleSubmission>,
    round_id: u64,
    now: u64,
    height: u64,
    amount: u128,
) -> (r: Result<SubmitOutcome, ContractError>)
    requires
        pending.len() < u64::MAX,
        !config.paused && sender_is_oracle && !already_submitted && pending.len() + 1
            >= config.min_submissions ==> round_id < u64::MAX,
    ensures
        config.paused ==> r == Err::<SubmitOutcome, _>(ContractError::Paused),
        !config.paused && !sender_is_oracle ==> (r matches Err(ContractError::NotOracle { address })
            && address@ == sender@),
        !config.paused && sender_is_oracle && already_submitted ==> (r matches Err(
            ContractError::AlreadySubmitted { address },
        ) && address@ == sender@),
        !config.paused && sender_is_oracle && !already_submitted ==> (r matches Ok(o) && {
            &&& o.submission.oracle@ == sender@
            &&& o.submission.value == amount
            &&& o.submission.timestamp == now
            &&& o.submission_count == pending.len() + 1
            &&& o.finalized.is_some() == (pending.len() + 1 >= config.min_submissions)
            &&& o.finalized matches Some(f) ==> f.round == (RoundData {
                round_id: (round_id + 1) as u64,
                reserve_amount: median(submitted_values(pending@, amount)),
                started_at: now,
                updated_at: now,
                block_height: height,
                submission_count: (pending.len() + 1) as u64,
                status: ReserveStatus::Active,
            }) && f.evicted_round == evicted_round((round_id + 1) as u64)
        }),
{
    if config.paused {
        return Err(ContractError::Paused);
    }
    if !sender_is_oracle {
        return Err(ContractError::NotOracle { address: sender.clone() });
    }
    if already_submitted {
        return Err(ContractError::AlreadySubmitted { address: sender.clone() });
    }
    let submission = OracleSubmission { oracle: sender.clone(), value: amount, timestamp: now };
    let count: u64 = pending.len() as u64 + 1;
    if count < config.min_submissions {
        return Ok(SubmitOutcome { submission, submission_count: count, finalized: None });
    }
    let mut values: Vec<u128> = Vec::new();
    let n = pending.len();
    let mut i: usize = 0;
    while i < n
        invariant
            n == pending.len(),
            i <= n,
            values@ =~= pending@.take(i as int).map_values(|s: OracleSubmission| s.value),
        decreases n - i,
    {
        values.push(pending[i].value);
        assert(pending@.take(i + 1) =~= pending@.take(i as int).push(pending@[i as int]));
        i = i + 1;
    }
    assert(pending@.take(n as int) =~= pending@);
    values.push(amount);
    assert(values@ =~= submitted_values(pending@, amount));
    sort_amounts(&mut values);
    let median_value = values[values.len() / 2];
    let new_round_id = round_id + 1;
    let round = RoundData {
        round_id: new_round_id,
        reserve_amount: median_value,
        started_at: now,
        updated_at: now,
        block_height: height,
        submission_count: count,
        status: ReserveStatus::Active,
    };
    let evicted = if new_round_id > MAX_HISTORY {
        Some(new_round_id - MAX_HISTORY)
    } else {
        None
    };
    Ok(SubmitOutcome {
        submission,
        submission_count: count,
        finalized: Some(FinalizedRound { round, evicted_round: evicted }),
    })
}

/// Sets the reserve by hand as a new round (admin only). Like a finalised submission, it
/// archives the round and drops the one `MAX_HISTORY` rounds back.
pub fn admin_override(
    config: &Config,
    sender: &String,
    round_id: u64,
    now: u64,
    height: u64,
    amount: u128,
) -> (r: Result<FinalizedRound, ContractError>)
    requires
        sender@ == config.admin@ ==> round_id < u64::MAX,
    ensures
        sender@ != config.admin@ ==> r == Err::<FinalizedRound, _>(ContractError::Unauthorized),
        sender@ == config.admin@ ==> r == Ok::<FinalizedRound, ContractError>(
            FinalizedRound {
                round: RoundData {
                    round_id: (round_id + 1) as u64,
                    reserve_amount: amount,
                    started_at: now,
                    updated_at: now,
                    block_height: height,
                    submission_count: 0,
                    status: ReserveStatus::Active,
                },
                evicted_round: evicted_round((round_id + 1) as u64),
            },
        ),
{
    if !is_admin(config, sender) {
        return Err(ContractError::Unauthorized);
    }
    let new_round_id = round_id + 1;
    let evicted = if new_round_id > MAX_HISTORY {
        Some(new_round_id - MAX_HISTORY)
    } else {
        None
    };
    Ok(
        FinalizedRound {
            round: RoundData {
                round_id: new_round_id,
                reserve_amount: amount,
                started_at: now,
                updated_at: now,
                block_height: height,
                submission_count: 0,
                status: ReserveStatus::Active,
            },
            evicted_round: evicted,
        },
    )
}

/// Authorises a new oracle relayer (admin only); `exists` tells whether the validated
/// address is already an oracle. Returns the address to register.
pub fn add_oracle(config: &Config, sender: &String, address: &String, validated: AddrCheck, exists: bool) -> (r:
    Result<String, ContractError>)
    ensures
        sender@ != config.admin@ ==> r == Err::<String, _>(ContractError::Unauthorized),
        sender@ == config.admin@ && validated is Err ==> r == Err::<String, _>(
            ContractError::InvalidAddress { msg: validated->Err_0 },
        ),
        sender@ == config.admin@ && validated is Ok && exists ==> (r matches Err(
            ContractError::OracleAlreadyExists { address: a },
        ) && a@ == address@),
        sender@ == config.admin@ && validated is Ok && !exists ==> r == Ok::<String, ContractError>(
            validated->Ok_0,
        ),
{
    if !is_admin(config, sender) {
        return Err(ContractError::Unauthorized);
    }
    let addr = match validated {
        Ok(a) => a,
        Err(e) => {
            return Err(ContractError::InvalidAddress { msg: e });
        },
    };
    if exists {
        return Err(ContractError::OracleAlreadyExists { address: address.clone() });
    }
    Ok(addr)
}

/// Removes an oracle relayer (admin only); `exists` tells whether the validated
/// address is an oracle. Returns the address to remove.
pub fn remove_oracle(
    config: &Config,
    sender: &String,
    address: &String,
    validated: AddrCheck,
    exists: bool,
) -> (r: Result<String, ContractError>)
    ensures
        sender@ != config.admin@ ==> r == Err::<String, _>(ContractError::Unauthorized),
        sender@ == config.admin@ && validated is Err ==> r == Err::<String, _>(
            ContractError::InvalidAddress { msg: validated->Err_0 },
        ),
        sender@ == config.admin@ && validated is Ok && !exists ==> (r matches Err(
            ContractError::NotOracle { address: a },
        ) && a@ == address@),
        sender@ == config.admin@ && validated is Ok && exists ==> r == Ok::<String, ContractError>(
            validated->Ok_0,
        ),
{
    if !is_admin(config, sender) {
        return Err(ContractError::Unauthorized);
    }
    let addr = match validated {
        Ok(a) => a,
        Err(e) => {
            return Err(ContractError::InvalidAddress { msg: e });
        },
    };
    if !exists {
        return Err(ContractError::NotOracle { address: address.clone() });
    }
    Ok(addr)
}

/// Updates thresholds and the factory address (admin only).
pub fn update_config(
    config: Config,
    sender: &String,
    staleness_threshold_secs: Option<u64>,
    min_submissions: Option<u64>,
    factory: Option<AddrCheck>,
) -> (r: Result<Config, ContractError>)
    ensures
        sender@ != config.admin@ ==> r == Err::<Config, _>(ContractError::Unauthorized),
        sender@ == config.admin@ && factory is Some && factory->0 is Err ==> r == Err::<Config, _>(
            ContractError::Std(StdError::GenericErr { msg: factory->0->Err_0 }),
        ),
        sender@ == config.admin@ && !(factory is Some && factory->0 is Err) ==> r == Ok::<
            Config,
            ContractError,
        >(
            Config {
                staleness_threshold_secs: match staleness_threshold_secs {
                    Some(v) => v,
                    None => config.staleness_threshold_secs,
                },
                min_submissions: match min_submissions {
                    Some(v) => v,
                    None => config.min_submissions,
                },
                factory: match factory {
                    Some(f) => Some(f->Ok_0),
                    None => config.factory,
                },
                ..config
            },
        ),
{
    if !is_admin(&config, sender) {
        return Err(ContractError::Unauthorized);
    }
    let mut cfg = config;
    if let Some(v) = staleness_threshold_secs {
        cfg.staleness_threshold_secs = v;
    }
    if let Some(v) = min_submissions {
        cfg.min_submissions = v;
    }
    match factory {
        Some(Ok(f)) => {
            cfg.factory = Some(f);
        },
        Some(Err(e)) => {
            return Err(ContractError::Std(StdError::GenericErr { msg: e }));
        },
        None => {},
    }
    Ok(cfg)
}

/// Sets the paused flag (admin only).
pub fn set_paused(config: Config, sender: &String, paused: bool) -> (r: Result<Config, ContractError>)
    ensures
        sender@ != config.admin@ ==> r == Err::<Config, _>(ContractError::Unauthorized),
        sender@ == config.admin@ ==> r == Ok::<Config, ContractError>(Config { paused, ..config }),
{
    if !is_admin(&config, sender) {
        return Err(ContractError::Unauthorized);
    }
    let mut cfg = config;
    cfg.paused = paused;
    Ok(cfg)
}

/// Hands the admin role to another address (admin only).
pub fn transfer_admin(config: Config, sender: &String, new_admin: AddrCheck) -> (r: Result<
    Config,
    ContractError,
>)
    ensures
        sender@ != config.admin@ ==> r == Err::<Config, _>(ContractError::Unauthorized),
        sender@ == config.admin@ && new_admin is Err ==> r == Err::<Config, _>(
            ContractError::InvalidAddress { msg: new_admin->Err_0 },
        ),
        sender@ == config.admin@ && new_admin is Ok ==> r == Ok::<Config, ContractError>(
            Config { admin: new_admin->Ok_0, ..config },
        ),
{
    if !is_admin(&config, sender) {
        return Err(ContractError::Unauthorized);
    }
    match new_admin {
        Ok(a) => {
            let mut cfg = config;
            cfg.admin = a;
            Ok(cfg)
        },
        Err(e) => Err(ContractError::InvalidAddress { msg: e }),
    }
}

/// Reason given when the aggregator is paused.
pub open spec fn paused_reason() -> Seq<char> {
    "Aggregator is paused"@
}

/// Reason given when no round has been finalised yet.
pub open spec fn uninitialized_reason() -> Seq<char> {
    "Reserve feed not initialized — no oracle submissions yet"@
}

/// Reason given when the latest round is older than the threshold.
pub open spec fn stale_reason(age: u64, threshold: u64) -> Seq<char> {
    "Reserve data is stale — "@ + decimal(age as nat) + "s old, threshold "@ + decimal(
        threshold as nat,
    ) + "s"@
}

/// Reason given when the mint would take supply above the reserve.
pub open spec fn exceeds_reason(circulating: u128, mint: u128, reserve: u128) -> Seq<char> {
    "Mint would exceed reserves: "@ + decimal(circulating as nat) + " circulating + "@ + decimal(
        mint as nat,
    ) + " requested > "@ + decimal(reserve as nat) + " attested"@
}

/// `a - b`, or zero when `b > a`.
pub open spec fn saturating_sub_u64(a: u64, b: u64) -> u64 {
    if a >= b {
        (a - b) as u64
    } else {
        0
    }
}

/// `a - b`, or zero when `b > a`.
pub open spec fn saturating_sub_u128(a: u128, b: u128) -> u128 {
    if a >= b {
        (a - b) as u128
    } else {
        0
    }
}

/// Circulating supply plus the mint, capped at the largest amount.
pub open spec fn proposed_total(circulating: u128, mint: u128) -> u128 {
    if circulating + mint > u128::MAX {
        u128::MAX
    } else {
        (circulating + mint) as u128
    }
}

/// Whether the latest attested reserve covers a mint: the aggregator is not paused, a
/// round exists, it is no older than the staleness threshold, and the proposed supply
/// does not exceed the reserve.
pub open spec fn mint_covered(
    config: Config,
    latest: Option<RoundData>,
    now: u64,
    mint_amount: u128,
    circulating_supply: u128,
) -> bool {
    &&& !config.paused
    &&& latest is Some
    &&& saturating_sub_u64(now, latest->0.updated_at) <= config.staleness_threshold_secs
    &&& proposed_total(circulating_supply, mint_amount) <= latest->0.reserve_amount
}

/// Decides whether a mint of `mint_amount` on top of `circulating_supply` is covered by
/// the latest attested reserve: the aggregator must not be paused, a round must exist, it
/// must be no older than the staleness threshold, and the proposed supply must not
/// exceed the reserve.
pub fn mint_check(
    config: &Config,
    latest: &Option<RoundData>,
    now: u64,
    mint_amount: u128,
    circulating_supply: u128,
) -> (r: MintCheckResponse)
    ensures
        r.valid == mint_covered(*config, *latest, now, mint_amount, circulating_supply),
        r.circulating_supply == circulating_supply,
        r.mint_amount == mint_amount,
        config.paused ==> !r.valid && r.reserve == 0 && r.headroom == 0 && r.data_age_secs == 0
            && r.reason is Some && r.reason->0@ == paused_reason(),
        !config.paused && latest is None ==> !r.valid && r.reserve == 0 && r.headroom == 0
            && r.data_age_secs == 0 && r.reason is Some && r.reason->0@ == uninitialized_reason(),
        !config.paused && latest is Some ==> ({
            let round = latest->0;
            let age = saturating_sub_u64(now, round.updated_at);
            &&& r.reserve == round.reserve_amount
            &&& r.data_age_secs == age
            &&& age > config.staleness_threshold_secs ==> !r.valid && r.headroom == 0
                && r.reason is Some && r.reason->0@ == stale_reason(
                age,
                config.staleness_threshold_secs,
            )
            &&& age <= config.staleness_threshold_secs && proposed_total(
                circulating_supply,
                mint_amount,
            ) > round.reserve_amount ==> !r.valid && r.headroom == saturating_sub_u128(
                round.reserve_amount,
                circulating_supply,
            ) && r.reason is Some && r.reason->0@ == exceeds_reason(
                circulating_supply,
                mint_amount,
                round.reserve_amount,
            )
            &&& age <= config.staleness_threshold_secs && proposed_total(
                circulating_supply,
                mint_amount,
            ) <= round.reserve_amount ==> r.valid && r.reason is None && r.headroom
                == saturating_sub_u128(
                saturating_sub_u128(round.reserve_amount, circulating_supply),
                mint_amount,
            )
        }),
{
    if config.paused {
        return MintCheckResponse {
            valid: false,
            reserve: 0,
            circulating_supply,
            mint_amount,
            headroom: 0,
            reason: Some(String::from_str("Aggregator is paused")),
            data_age_secs: 0,
        };
    }
    let round = match latest {
        Some(r) => r,
        None => {
            return MintCheckResponse {
                valid: false,
                reserve: 0,
                circulating_supply,
                mint_amount,
                headroom: 0,
                reason: Some(
                    String::from_str("Reserve feed not initialized — no oracle submissions yet"),
                ),
                data_age_secs: 0,
            };
        },
    };
    let data_age_secs: u64 = if now >= round.updated_at {
        now - round.updated_at
    } else {
        0
    };
    if data_age_secs > config.staleness_threshold_secs {
        let mut reason = String::from_str("Reserve data is stale — ");
        reason.append(u128_to_string(data_age_secs as u128).as_str());
        reason.append("s old, threshold ");
        reason.append(u128_to_string(config.staleness_threshold_secs as u128).as_str());
        reason.append("s");
        return MintCheckResponse {
            valid: false,
            reserve: round.reserve_amount,
            circulating_supply,
            mint_amount,
            headroom: 0,
            reason: Some(reason),
            data_age_secs,
        };
    }
    let proposed: u128 = match circulating_supply.checked_add(mint_amount) {
        Some(t) => t,
        None => u128::MAX,
    };
    if proposed > round.reserve_amount {
        let headroom: u128 = if round.reserve_amount >= circulating_supply {
            round.reserve_amount - circulating_supply
        } else {
            0
        };
        let mut reason = String::from_str("Mint would exceed reserves: ");
        reason.append(u128_to_string(circulating_supply).as_str());
        reason.append(" circulating + ");
        reason.append(u128_to_string(mint_amount).as_str());
        reason.append(" requested > ");
        reason.append(u128_to_string(round.reserve_amount).as_str());
        reason.append(" attested");
        return MintCheckResponse {
            valid: false,
            reserve: round.reserve_amount,
            circulating_supply,
            mint_amount,
            headroom,
            reason: Some(reason),
            data_age_secs,
        };
    }
    let after_supply: u128 = if round.reserve_amount >= circulating_supply {
        round.reserve_amount - circulating_supply
    } else {
        0
    };
    let headroom: u128 = if after_supply >= mint_amount {
        after_supply - mint_amount
    } else {
        0
    };
    MintCheckResponse {
        valid: true,
        reserve: round.reserve_amount,
        circulating_supply,
        mint_amount,
        headroom,
        reason: None,
        data_age_secs,
    }
}

/// The authorised oracle relayers, given in storage order, as a query answer.
pub fn list_oracles(entries: &Vec<(String, String)>) -> (r: ListOraclesResponse)
    ensures
        r.oracles.len() == entries.len(),
        forall|i: int|
            0 <= i < entries.len() ==> #[trigger] r.oracles[i] == (OracleInfo {
                address: entries[i].0,
                label: entries[i].1,
            }),
{
    let mut oracles: Vec<OracleInfo> = Vec::new();
    let n = entries.len();
    let mut i: usize = 0;
    while i < n
        invariant
            n == entries.len(),
            i <= n,
            oracles.len() == i,
            forall|j: int|
                0 <= j < i ==> #[trigger] oracles[j] == (OracleInfo {
                    address: entries[j].0,
                    label: entries[j].1,
                }),
        decreases n - i,
    {
        oracles.push(OracleInfo { address: entries[i].0.clone(), label: entries[i].1.clone() });
        i = i + 1;
    }
    ListOraclesResponse { oracles }
}

/// The number of rounds a history query returns.
pub open spec fn history_limit(limit: Option<u32>) -> nat {
    match limit {
        Some(l) => l as nat,
        None => DEFAULT_HISTORY_LIMIT as nat,
    }
}

/// The first rounds of `rounds` (newest first, as storage enumerates them descending)
/// up to the requested limit.
pub fn round_history(rounds: Vec<RoundData>, limit: Option<u32>) -> (r: Vec<RoundData>)
    ensures
        r@ == rounds@.take(
            if history_limit(limit) < rounds.len() {
                history_limit(limit) as int
            } else {
                rounds.len() as int
            },
        ),
{
    let l: usize = match limit {
        Some(v) => v as usize,
        None => DEFAULT_HISTORY_LIMIT as usize,
    };
    let mut out: Vec<RoundData> = Vec::new();
    let n = rounds.len();
    let mut i: usize = 0;
    while i < n && i < l
        invariant
            n == rounds.len(),
            l == history_limit(limit),
            i <= n,
            i <= l,
            out@ =~= rounds@.take(i as int),
        decreases n - i,
    {
        out.push(rounds[i]);
        assert(rounds@.take(i + 1) =~= rounds@.take(i as int).push(rounds@[i as int]));
        i = i + 1;
    }
    out
}

} // verus!
