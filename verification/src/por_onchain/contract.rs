use super::error::ContractError;
use super::msg::{InstantiateMsg, ReserveSourceBalance, TotalReserveResponse};
use super::state::{Config, ReserveSource};
use crate::common::{decimal, u128_to_string, AddrCheck};
use crate::por_aggregator::msg::ExecuteMsg as AggregatorExecuteMsg;
use vstd::prelude::*;

verus! {

/// What instantiation writes: the configuration and the initial sources (stored by id,
/// later ones replacing earlier ones with the same id).
#[derive(Clone, Debug, PartialEq, Eq)]
pub struct InstantiateOutcome {
    pub config: Config,
    pub sources: Vec<ReserveSource>,
}

/// Builds the configuration of a new verifier from the validated addresses.
pub fn instantiate(msg: InstantiateMsg, admin: AddrCheck, aggregator: AddrCheck, issuer: AddrCheck) -> (r:
    Result<InstantiateOutcome, ContractError>)
    ensures
        admin is Err ==> r == Err::<InstantiateOutcome, _>(
            ContractError::InvalidAddress { msg: admin->Err_0 },
        ),
        admin is Ok && aggregator is Err ==> r == Err::<InstantiateOutcome, _>(
            ContractError::InvalidAddress { msg: aggregator->Err_0 },
        ),
        admin is Ok && aggregator is Ok && issuer is Err ==> r == Err::<InstantiateOutcome, _>(
            ContractError::InvalidAddress { msg: issuer->Err_0 },
        ),
        admin is Ok && aggregator is Ok && issuer is Ok ==> r == Ok::<
            InstantiateOutcome,
            ContractError,
        >(
            InstantiateOutcome {
                config: Config {
                    admin: admin->Ok_0,
                    aggregator_addr: aggregator->Ok_0,
                    issuer_addr: issuer->Ok_0,
                    description: msg.description,
                },
                sources: msg.initial_sources,
            },
        ),
{
    let admin_addr = match admin {
        Ok(a) => a,
        Err(e) => {
            return Err(ContractError::InvalidAddress { msg: e });
        },
    };
    let aggregator_addr = match aggregator {
        Ok(a) => a,
        Err(e) => {
            return Err(ContractError::InvalidAddress { msg: e });
        },
    };
    let issuer_addr = match issuer {
        Ok(a) => a,
        Err(e) => {
            return Err(ContractError::InvalidAddress { msg: e });
        },
    };
    Ok(
        InstantiateOutcome {
            config: Config {
                admin: admin_addr,
                aggregator_addr,
                issuer_addr,
                description: msg.description,
            },
            sources: msg.initial_sources,
        },
    )
}

/// A copy of a reserve source.
pub fn copy_source(s: &ReserveSource) -> (r: ReserveSource)
    ensures
        r == *s,
{
    ReserveSource {
        id: s.id.clone(),
        token_contract: s.token_contract.clone(),
        label: s.label.clone(),
        active: s.active,
        last_balance: s.last_balance,
        last_snapshot_height: s.last_snapshot_height,
    }
}

/// Whether a source is active.
pub open spec fn is_active() -> spec_fn(ReserveSource) -> bool {
    |s: ReserveSource| s.active
}

/// The active sources among all sources (in storage order); their balances are the
/// ones to query.
pub fn active_sources(sources: &Vec<ReserveSource>) -> (r: Vec<ReserveSource>)
    ensures
        r@ == sources@.filter(is_active()),
{
    let mut out: Vec<ReserveSource> = Vec::new();
    let n = sources.len();
    let mut i: usize = 0;
    while i < n
        invariant
            n == sources.len(),
            i <= n,
            out@ == sources@.take(i as int).filter(is_active()),
        decreases n - i,
    {
        proof {
            sources@.take(i as int).lemma_filter_push(sources@[i as int], is_active());
            assert(sources@.take(i + 1) =~= sources@.take(i as int).push(sources@[i as int]));
        }
        if sources[i].active {
            out.push(copy_source(&sources[i]));
        }
        i = i + 1;
    }
    assert(sources@.take(n as int) =~= sources@);
    out
}

/// The sum of a sequence of amounts.
pub open spec fn sum(vals: Seq<u128>) -> int
    decreases vals.len(),
{
    if vals.len() == 0 {
        0
    } else {
        sum(vals.drop_last()) + vals.last()
    }
}

proof fn lemma_sum_prefix_bounded(vals: Seq<u128>, i: int)
    requires
        0 <= i <= vals.len(),
    ensures
        0 <= sum(vals.take(i)) <= sum(vals),
    decreases vals.len(),
{
    if vals.len() == 0 {
        assert(vals.take(i) =~= vals);
    } else if i == vals.len() {
        assert(vals.take(i) =~= vals);
        lemma_sum_prefix_bounded(vals.drop_last(), vals.len() - 1);
        assert(vals.drop_last().take(vals.len() - 1) =~= vals.drop_last());
    } else {
        lemma_sum_prefix_bounded(vals.drop_last(), i);
        assert(vals.drop_last().take(i) =~= vals.take(i));
    }
}

/// Adds up balances, as the snapshot and the total-reserve query do.
fn total_of(balances: &Vec<u128>) -> (r: u128)
    requires
        sum(balances@) <= u128::MAX,
    ensures
        r == sum(balances@),
{
    let mut total: u128 = 0;
    let n = balances.len();
    let mut i: usize = 0;
    while i < n
        invariant
            n == balances.len(),
            i <= n,
            sum(balances@) <= u128::MAX,
            total == sum(balances@.take(i as int)),
        decreases n - i,
    {
        proof {
            assert(balances@.take(i + 1).drop_last() =~= balances@.take(i as int));
            lemma_sum_prefix_bounded(balances@, i + 1);
        }
        total = total + balances[i];
        i = i + 1;
    }
    assert(balances@.take(n as int) =~= balances@);
    total
}

/// A request to the aggregator.
#[derive(Clone, Debug, PartialEq, Eq)]
pub struct AggregatorCall {
    pub contract_addr: String,
    pub msg: AggregatorExecuteMsg,
}

/// What a snapshot writes and sends.
#[derive(Clone, Debug, PartialEq, Eq)]
pub struct SnapshotOutcome {
    /// The active sources with their new balances and snapshot height.
    pub sources: Vec<ReserveSource>,
    pub total: u128,
    /// The submission of the total to the aggregator.
    pub report: AggregatorCall,
}

/// The reference attached to the snapshot submission of block `height`.
pub open spec fn snapshot_reference(height: u64) -> Seq<char> {
    "onchain-snapshot-block-"@ + decimal(height as nat)
}

/// Records a snapshot: `active` are the active sources and `balances` the issuer's
/// balance at each of their token contracts, in the same order; `height` is the block
/// height. The total is submitted to the aggregator.
pub fn take_snapshot(config: &Config, active: &Vec<ReserveSource>, balances: &Vec<u128>, height: u64) -> (r:
    SnapshotOutcome)
    requires
        active.len() == balances.len(),
        sum(balances@) <= u128::MAX,
    ensures
        r.total == sum(balances@),
        r.sources.len() == active.len(),
        forall|i: int|
            0 <= i < active.len() ==> #[trigger] r.sources[i] == (ReserveSource {
                last_balance: balances[i],
                last_snapshot_height: height,
                ..active[i]
            }),
        r.report.contract_addr == config.aggregator_addr,
        r.report.msg matches AggregatorExecuteMsg::SubmitReserve { amount, reference } && amount
            == sum(balances@) && reference is Some && reference->0@ == snapshot_reference(height),
{
    let total = total_of(balances);
    let mut updated: Vec<ReserveSource> = Vec::new();
    let n = active.len();
    let mut i: usize = 0;
    while i < n
        invariant
            n == active.len(),
            n == balances.len(),
            i <= n,
            updated.len() == i,
            forall|j: int|
                0 <= j < i ==> #[trigger] updated[j] == (ReserveSource {
                    last_balance: balances[j],
                    last_snapshot_height: height,
                    ..active[j]
                }),
        decreases n - i,
    {
        let mut s = copy_source(&active[i]);
        s.last_balance = balances[i];
        s.last_snapshot_height = height;
        updated.push(s);
        i = i + 1;
    }
    let mut reference = String::from_str("onchain-snapshot-block-");
    reference.append(u128_to_string(height as u128).as_str());
    SnapshotOutcome {
        sources: updated,
        total,
        report: AggregatorCall {
            contract_addr: config.aggregator_addr.clone(),
            msg: AggregatorExecuteMsg::SubmitReserve { amount: total, reference: Some(reference) },
        },
    }
}

/// The live total reserve: `active` are the active sources and `balances` the issuer's
/// balances at their token contracts, in the same order.
pub fn total_reserve(active: &Vec<ReserveSource>, balances: &Vec<u128>, height: u64) -> (r:
    TotalReserveResponse)
    requires
        active.len() == balances.len(),
        sum(balances@) <= u128::MAX,
    ensures
        r.total == sum(balances@),
        r.snapshot_height == height,
        r.sources.len() == active.len(),
        forall|i: int|
            0 <= i < active.len() ==> #[trigger] r.sources[i] == (ReserveSourceBalance {
                id: active[i].id,
                label: active[i].label,
                token_contract: active[i].token_contract,
                balance: balances[i],
            }),
{
    let total = total_of(balances);
    let mut out: Vec<ReserveSourceBalance> = Vec::new();
    let n = active.len();
    let mut i: usize = 0;
    while i < n
        invariant
            n == active.len(),
            n == balances.len(),
            i <= n,
            out.len() == i,
            forall|j: int|
                0 <= j < i ==> #[trigger] out[j] == (ReserveSourceBalance {
                    id: active[j].id,
                    label: active[j].label,
                    token_contract: active[j].token_contract,
                    balance: balances[j],
                }),
        decreases n - i,
    {
        out.push(
            ReserveSourceBalance {
                id: active[i].id.clone(),
                label: active[i].label.clone(),
                token_contract: active[i].token_contract.clone(),
                balance: balances[i],
            },
        );
        i = i + 1;
    }
    TotalReserveResponse { total, sources: out, snapshot_height: height }
}

fn is_admin(config: &Config, sender: &String) -> (r: bool)
    ensures
        r == (sender@ == config.admin@),
{
    *sender == config.admin
}

/// Adds or replaces a reserve source (admin only). Returns the source to store.
pub fn add_source(config: &Config, sender: &String, source: ReserveSource) -> (r: Result<
    ReserveSource,
    ContractError,
>)
    ensures
        sender@ != config.admin@ ==> r == Err::<ReserveSource, _>(ContractError::Unauthorized),
        sender@ == config.admin@ ==> r == Ok::<ReserveSource, ContractError>(source),
{
    if !is_admin(config, sender) {
        return Err(ContractError::Unauthorized);
    }
    Ok(source)
}

/// Deactivates a source (admin only); `existing` is the stored source with that id.
pub fn remove_source(config: &Config, sender: &String, id: String, existing: Option<ReserveSource>) -> (r:
    Result<ReserveSource, ContractError>)
    ensures
        sender@ != config.admin@ ==> r == Err::<ReserveSource, _>(ContractError::Unauthorized),
        sender@ == config.admin@ && existing is None ==> r == Err::<ReserveSource, _>(
            ContractError::SourceNotFound { id },
        ),
        sender@ == config.admin@ && existing is Some ==> r == Ok::<ReserveSource, ContractError>(
            ReserveSource { active: false, ..existing->0 },
        ),
{
    if !is_admin(config, sender) {
        return Err(ContractError::Unauthorized);
    }
    match existing {
        Some(mut s) => {
            s.active = false;
            Ok(s)
        },
        None => Err(ContractError::SourceNotFound { id }),
    }
}

/// Points the verifier at another aggregator (admin only).
pub fn update_aggregator(config: Config, sender: &String, validated_address: AddrCheck) -> (r: Result<
    Config,
    ContractError,
>)
    ensures
        sender@ != config.admin@ ==> r == Err::<Config, _>(ContractError::Unauthorized),
        sender@ == config.admin@ && validated_address is Err ==> r == Err::<Config, _>(
            ContractError::InvalidAddress { msg: validated_address->Err_0 },
        ),
        sender@ == config.admin@ && validated_address is Ok ==> r == Ok::<Config, ContractError>(
            Config { aggregator_addr: validated_address->Ok_0, ..config },
        ),
{
    if !is_admin(&config, sender) {
        return Err(ContractError::Unauthorized);
    }
    match validated_address {
        Ok(a) => {
            let mut cfg = config;
            cfg.aggregator_addr = a;
            Ok(cfg)
        },
        Err(e) => Err(ContractError::InvalidAddress { msg: e }),
    }
}

/// Hands the admin role to another address (admin only).
pub fn transfer_admin(config: Config, sender: &String, validated_address: AddrCheck) -> (r: Result<
    Config,
    ContractError,
>)
    ensures
        sender@ != config.admin@ ==> r == Err::<Config, _>(ContractError::Unauthorized),
        sender@ == config.admin@ && validated_address is Err ==> r == Err::<Config, _>(
            ContractError::InvalidAddress { msg: validated_address->Err_0 },
        ),
        sender@ == config.admin@ && validated_address is Ok ==> r == Ok::<Config, ContractError>(
            Config { admin: validated_address->Ok_0, ..config },
        ),
{
    if !is_admin(&config, sender) {
        return Err(ContractError::Unauthorized);
    }
    match validated_address {
        Ok(a) => {
            let mut cfg = config;
            cfg.admin = a;
            Ok(cfg)
        },
        Err(e) => Err(ContractError::InvalidAddress { msg: e }),
    }
}

} // verus!
